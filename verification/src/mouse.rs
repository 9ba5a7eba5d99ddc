use vstd::prelude::*;
use crate::point::Point;

verus! {

/// Whether a button is held down.
#[derive(Debug, Clone, Copy, PartialEq, Eq, Structural)]
pub enum ButtonState {
    Up,
    Down,
}

/// The pointer as it is during one frame.
#[derive(Debug, Clone, Copy)]
pub struct Mouse {
    pub pos: Point,
    pub left: ButtonState,
    pub middle: ButtonState,
    pub right: ButtonState,
}

impl Mouse {
    /// A pointer at `pos` with the given buttons.
    pub fn new(pos: Point, left: ButtonState, middle: ButtonState, right: ButtonState) -> (mouse:
        Mouse)
        ensures
            mouse == (Mouse { pos, left, middle, right }),
    {
        Mouse { pos, left, middle, right }
    }
}

} // verus!
