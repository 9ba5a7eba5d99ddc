use vstd::prelude::*;
use crate::dimensions::Dimensions;
use crate::point::Point;

verus! {

/// How a rectangular control is to be painted.
#[derive(Debug, Clone, Copy, PartialEq, Eq, Structural)]
pub enum State {
    Normal,
    Highlighted,
    Clicked,
}

/// Whether `mouse_pos` lies in the rectangle at `pos` with extent `dim`.
/// The rectangle is closed: a point on its boundary lies in it.
pub open spec fn contains(pos: Point, mouse_pos: Point, dim: Dimensions) -> bool {
    &&& pos[0] <= mouse_pos[0] <= pos[0] + dim[0]
    &&& pos[1] <= mouse_pos[1] <= pos[1] + dim[1]
}

/// Tells whether the pointer is over the rectangle at `pos` with extent `dim`.
pub fn is_over(pos: Point, mouse_pos: Point, dim: Dimensions) -> (over: bool)
    ensures
        over == contains(pos, mouse_pos, dim),
{
    let x: i128 = mouse_pos[0] as i128;
    let y: i128 = mouse_pos[1] as i128;
    let left: i128 = pos[0] as i128;
    let top: i128 = pos[1] as i128;
    left <= x && x <= left + dim[0] as i128 && top <= y && y <= top + dim[1] as i128
}

} // verus!
