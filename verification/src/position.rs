use vstd::prelude::*;
use crate::point::{Point, Scalar};
use crate::ui::{Ui, UIID};

verus! {

/// The point with the coordinates `xy`.
pub open spec fn point_of(xy: (Scalar, Scalar)) -> Point {
    [xy.0, xy.1]
}

/// A control that can be moved before it is drawn: to a position given
/// outright, or to one beside a control that was drawn before.
pub trait Positionable: Sized {
    /// This control at `pos`, with everything else as it is.
    spec fn moved_to(self, pos: Point) -> Self;

    /// Moves the control to `pos`.
    fn point(self, pos: Point) -> (moved: Self)
        ensures
            moved == self.moved_to(pos),
    ;

    /// Moves the control to `[x, y]`.
    fn position(self, x: Scalar, y: Scalar) -> (moved: Self)
        ensures
            moved == self.moved_to([x, y]),
    {
        self.point([x, y])
    }

    /// Moves the control `padding` below the control that was drawn last.
    fn down(self, padding: Scalar, ui: &Ui) -> (moved: Self)
        ensures
            moved == self.moved_to(point_of(ui.placing(ui.prev()).down(padding))),
    {
        let (x, y) = ui.get_placing(ui.get_prev_uiid()).down(padding);
        self.point([x, y])
    }

    /// Moves the control `padding` above the control that was drawn last.
    fn up(self, padding: Scalar, ui: &Ui) -> (moved: Self)
        ensures
            moved == self.moved_to(point_of(ui.placing(ui.prev()).up(padding))),
    {
        let (x, y) = ui.get_placing(ui.get_prev_uiid()).up(padding);
        self.point([x, y])
    }

    /// Moves the control `padding` left of the control that was drawn last.
    fn left(self, padding: Scalar, ui: &Ui) -> (moved: Self)
        ensures
            moved == self.moved_to(point_of(ui.placing(ui.prev()).left(padding))),
    {
        let (x, y) = ui.get_placing(ui.get_prev_uiid()).left(padding);
        self.point([x, y])
    }

    /// Moves the control `padding` right of the control that was drawn last.
    fn right(self, padding: Scalar, ui: &Ui) -> (moved: Self)
        ensures
            moved == self.moved_to(point_of(ui.placing(ui.prev()).right(padding))),
    {
        let (x, y) = ui.get_placing(ui.get_prev_uiid()).right(padding);
        self.point([x, y])
    }

    /// Moves the control `padding` below the control `ui_id`.
    fn down_from(self, ui_id: UIID, padding: Scalar, ui: &Ui) -> (moved: Self)
        ensures
            moved == self.moved_to(point_of(ui.placing(ui_id).down(padding))),
    {
        let (x, y) = ui.get_placing(ui_id).down(padding);
        self.point([x, y])
    }

    /// Moves the control `padding` above the control `ui_id`.
    fn up_from(self, ui_id: UIID, padding: Scalar, ui: &Ui) -> (moved: Self)
        ensures
            moved == self.moved_to(point_of(ui.placing(ui_id).up(padding))),
    {
        let (x, y) = ui.get_placing(ui_id).up(padding);
        self.point([x, y])
    }

    /// Moves the control `padding` left of the control `ui_id`.
    fn left_from(self, ui_id: UIID, padding: Scalar, ui: &Ui) -> (moved: Self)
        ensures
            moved == self.moved_to(point_of(ui.placing(ui_id).left(padding))),
    {
        let (x, y) = ui.get_placing(ui_id).left(padding);
        self.point([x, y])
    }

    /// Moves the control `padding` right of the control `ui_id`.
    fn right_from(self, ui_id: UIID, padding: Scalar, ui: &Ui) -> (moved: Self)
        ensures
            moved == self.moved_to(point_of(ui.placing(ui_id).right(padding))),
    {
        let (x, y) = ui.get_placing(ui_id).right(padding);
        self.point([x, y])
    }
}

} // verus!
