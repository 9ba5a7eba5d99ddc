[package]
name = "conrod"
version = "0.1.0"
edition = "2021"
publish = false

[dependencies]
clock_ticks = "*"
num = "*"
piston = "*"
piston2d-graphics = "*"
vecmath = "*"
