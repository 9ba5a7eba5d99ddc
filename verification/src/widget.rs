use vstd::prelude::*;
use crate::dimensions::Dimensions;
use crate::point::{saturate, saturated, Point, Scalar};
use crate::text_box;
use crate::toggle;

verus! {

/// The state that is kept for one control from frame to frame, by its kind.
#[derive(Debug, Clone, Copy, PartialEq, Eq, Structural)]
pub enum Widget {
    TextBox(text_box::State),
    Toggle(toggle::State),
}

impl Widget {
    /// Whether two states belong to controls of one kind.
    pub open spec fn same_kind(self, other: Widget) -> bool {
        (self is TextBox && other is TextBox) || (self is Toggle && other is Toggle)
    }

    /// Tells whether `other` is the state of a control of the same kind.
    pub fn matches(&self, other: &Widget) -> (same: bool)
        ensures
            same == self.same_kind(*other),
    {
        match (*self, *other) {
            (Widget::TextBox(_), Widget::TextBox(_)) => true,
            (Widget::Toggle(_), Widget::Toggle(_)) => true,
            _ => false,
        }
    }
}

/// Where a control was when it was last drawn: `Place(x, y, width, height)`,
/// or `NoPlace` for a control that has not been drawn.
#[derive(Debug, Clone, Copy, PartialEq, Eq, Structural)]
pub enum Placing {
    Place(Scalar, Scalar, Scalar, Scalar),
    NoPlace,
}

impl Placing {
    /// The place of a control drawn at `pos` with extent `dim`.
    pub open spec fn at(pos: Point, dim: Dimensions) -> Placing {
        Placing::Place(pos[0], pos[1], dim[0], dim[1])
    }

    /// The position `padding` below the lower edge, at the same `x`.
    /// A control without a place stands for one at the origin without extent
    /// or padding.
    pub open spec fn spec_down(&self, padding: Scalar) -> (Scalar, Scalar) {
        match *self {
            Placing::Place(x, y, _, h) => (x, saturated(y + h + padding)),
            Placing::NoPlace => (0, 0),
        }
    }

    /// The position `padding` above the upper edge, at the same `x`.
    pub open spec fn spec_up(&self, padding: Scalar) -> (Scalar, Scalar) {
        match *self {
            Placing::Place(x, y, _, _) => (x, saturated(y - padding)),
            Placing::NoPlace => (0, 0),
        }
    }

    /// The position `padding` left of the left edge, at the same `y`.
    pub open spec fn spec_left(&self, padding: Scalar) -> (Scalar, Scalar) {
        match *self {
            Placing::Place(x, y, _, _) => (saturated(x - padding), y),
            Placing::NoPlace => (0, 0),
        }
    }

    /// The position `padding` right of the right edge, at the same `y`.
    pub open spec fn spec_right(&self, padding: Scalar) -> (Scalar, Scalar) {
        match *self {
            Placing::Place(x, y, w, _) => (saturated(x + w + padding), y),
            Placing::NoPlace => (0, 0),
        }
    }

    /// The position `padding` below the lower edge, at the same `x`.
    #[verifier::when_used_as_spec(spec_down)]
    pub fn down(&self, padding: Scalar) -> (xy: (Scalar, Scalar))
        ensures
            xy == self.spec_down(padding),
    {
        match *self {
            Placing::Place(x, y, _, h) => (x, saturate(y as i128 + h as i128 + padding as i128)),
            Placing::NoPlace => (0, 0),
        }
    }

    /// The position `padding` above the upper edge, at the same `x`.
    #[verifier::when_used_as_spec(spec_up)]
    pub fn up(&self, padding: Scalar) -> (xy: (Scalar, Scalar))
        ensures
            xy == self.spec_up(padding),
    {
        match *self {
            Placing::Place(x, y, _, _) => (x, saturate(y as i128 - padding as i128)),
            Placing::NoPlace => (0, 0),
        }
    }

    /// The position `padding` left of the left edge, at the same `y`.
    #[verifier::when_used_as_spec(spec_left)]
    pub fn left(&self, padding: Scalar) -> (xy: (Scalar, Scalar))
        ensures
            xy == self.spec_left(padding),
    {
        match *self {
            Placing::Place(x, y, _, _) => (saturate(x as i128 - padding as i128), y),
            Placing::NoPlace => (0, 0),
        }
    }

    /// The position `padding` right of the right edge, at the same `y`.
    #[verifier::when_used_as_spec(spec_right)]
    pub fn right(&self, padding: Scalar) -> (xy: (Scalar, Scalar))
        ensures
            xy == self.spec_right(padding),
    {
        match *self {
            Placing::Place(x, y, w, _) => (saturate(x as i128 + w as i128 + padding as i128), y),
            Placing::NoPlace => (0, 0),
        }
    }
}

} // verus!
