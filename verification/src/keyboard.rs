use vstd::prelude::*;

verus! {

/// A key that was pressed during a frame: one of the four that a text box
/// answers to, or any other.
#[derive(Debug, Clone, Copy, PartialEq, Eq, Structural)]
pub enum Key {
    Backspace,
    Left,
    Right,
    Return,
    Other,
}

} // verus!
