use vstd::prelude::*;
use std::collections::HashMap;
use crate::dimensions::Dimensions;
use crate::point::Point;
use crate::widget::{Placing, Widget};

verus! {

broadcast use vstd::std_specs::hash::group_hash_axioms;

/// The name of a control: chosen by the caller, one for each control, and
/// the same in every frame.
pub type UIID = u64;

/// Two controls of different kinds were given the same name. The name scheme
/// of the caller is broken: this is no error to recover from.
#[derive(Debug, Clone, Copy, PartialEq, Eq, Structural)]
pub struct Conflict {
    pub ui_id: UIID,
}

/// What is remembered of each control between frames: its state and the place
/// where it was last drawn.
pub struct Ui {
    data: HashMap<UIID, (Widget, Placing)>,
    prev_uiid: UIID,
}

impl View for Ui {
    type V = Map<UIID, (Widget, Placing)>;

    closed spec fn view(&self) -> Map<UIID, (Widget, Placing)> {
        self.data@
    }
}

/// `data` with an entry for `ui_id`: the one it has, or else `default` without
/// a place.
pub open spec fn with_default(
    data: Map<UIID, (Widget, Placing)>,
    ui_id: UIID,
    default: Widget,
) -> Map<UIID, (Widget, Placing)> {
    if data.contains_key(ui_id) {
        data
    } else {
        data.insert(ui_id, (default, Placing::NoPlace))
    }
}

/// Whether `data` holds for `ui_id` the state of a control of another kind
/// than `widget`.
pub open spec fn conflicts(
    data: Map<UIID, (Widget, Placing)>,
    ui_id: UIID,
    widget: Widget,
) -> bool {
    data.contains_key(ui_id) && !data[ui_id].0.same_kind(widget)
}

/// Whether every control that `before` knows is known to `after` as a control
/// of the same kind: no control was forgotten, and none changed its kind.
pub open spec fn keeps_kinds(
    before: Map<UIID, (Widget, Placing)>,
    after: Map<UIID, (Widget, Placing)>,
) -> bool {
    forall|ui_id: UIID| #[trigger]
        before.contains_key(ui_id) ==> after.contains_key(ui_id) && after[ui_id].0.same_kind(
            before[ui_id].0,
        )
}

impl Ui {
    /// The name of the control that was drawn last.
    pub closed spec fn prev(&self) -> UIID {
        self.prev_uiid
    }

    /// The place where `ui_id` was last drawn.
    pub open spec fn placing(&self, ui_id: UIID) -> Placing {
        if self@.contains_key(ui_id) {
            self@[ui_id].1
        } else {
            Placing::NoPlace
        }
    }

    /// A store that knows no control.
    pub fn new() -> (ui: Ui)
        ensures
            ui@ == Map::<UIID, (Widget, Placing)>::empty(),
            ui.prev() == 0,
    {
        Ui { data: HashMap::new(), prev_uiid: 0 }
    }

    /// The state kept for `ui_id`. A control that is seen for the first time
    /// gets the state `default`, and no place.
    pub fn get_widget(&mut self, ui_id: UIID, default: Widget) -> (widget: Widget)
        ensures
            final(self)@ == with_default(old(self)@, ui_id, default),
            widget == final(self)@[ui_id].0,
            final(self).prev() == old(self).prev(),
            keeps_kinds(old(self)@, final(self)@),
    {
        match self.data.get(&ui_id) {
            Some(entry) => entry.0,
            None => {
                self.data.insert(ui_id, (default, Placing::NoPlace));
                default
            },
        }
    }

    /// Keeps `widget` as the state of `ui_id`, and `pos` and `dim` as the place
    /// where it was drawn, and remembers `ui_id` as the control drawn last.
    /// Where the store holds for `ui_id` the state of a control of another
    /// kind, nothing changes and the conflict is returned.
    pub fn set_widget(&mut self, ui_id: UIID, widget: Widget, pos: Point, dim: Dimensions) -> (done:
        Result<(), Conflict>)
        ensures
            conflicts(old(self)@, ui_id, widget) ==> done == Err::<(), Conflict>(
                Conflict { ui_id },
            ) && final(self)@ == old(self)@ && final(self).prev() == old(self).prev(),
            !conflicts(old(self)@, ui_id, widget) ==> done is Ok && final(self)@ == old(
                self,
            )@.insert(ui_id, (widget, Placing::at(pos, dim))) && final(self).prev() == ui_id,
            keeps_kinds(old(self)@, final(self)@),
    {
        let fits = match self.data.get(&ui_id) {
            Some(entry) => entry.0.matches(&widget),
            None => true,
        };
        if fits {
            self.data.insert(ui_id, (widget, Placing::Place(pos[0], pos[1], dim[0], dim[1])));
            self.prev_uiid = ui_id;
            Ok(())
        } else {
            Err(Conflict { ui_id })
        }
    }

    /// The place where `ui_id` was last drawn: `NoPlace` for a control that
    /// the store does not know or that has not been drawn.
    pub fn get_placing(&self, ui_id: UIID) -> (placing: Placing)
        ensures
            placing == self.placing(ui_id),
    {
        match self.data.get(&ui_id) {
            Some(entry) => entry.1,
            None => Placing::NoPlace,
        }
    }

    /// The name of the control that was drawn last, `0` before any was.
    pub fn get_prev_uiid(&self) -> (ui_id: UIID)
        ensures
            ui_id == self.prev(),
    {
        self.prev_uiid
    }
}

} // verus!
