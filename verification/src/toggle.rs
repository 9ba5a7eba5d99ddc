use vstd::prelude::*;
use crate::dimensions::Dimensions;
use crate::mouse::{ButtonState, Mouse};
use crate::point::Point;
use crate::position::Positionable;
use crate::rectangle;
use crate::ui::{conflicts, keeps_kinds, with_default, Conflict, Ui, UIID};
use crate::widget::{Placing, Widget};

verus! {

/// The state of a toggle between two frames.
#[derive(Debug, Clone, Copy, PartialEq, Eq, Structural)]
pub enum State {
    Normal,
    Highlighted,
    Clicked,
}

impl State {
    /// How a toggle in this state is painted.
    pub open spec fn spec_as_rectangle_state(&self) -> rectangle::State {
        match *self {
            State::Normal => rectangle::State::Normal,
            State::Highlighted => rectangle::State::Highlighted,
            State::Clicked => rectangle::State::Clicked,
        }
    }

    /// How a toggle in this state is painted.
    #[verifier::when_used_as_spec(spec_as_rectangle_state)]
    pub fn as_rectangle_state(&self) -> (state: rectangle::State)
        ensures
            state == self.spec_as_rectangle_state(),
    {
        match *self {
            State::Normal => rectangle::State::Normal,
            State::Highlighted => rectangle::State::Highlighted,
            State::Clicked => rectangle::State::Clicked,
        }
    }
}

/// The state that follows `prev` in a frame in which the pointer is over the
/// toggle or not, as `is_over` says, and its left button is as `left` says.
pub open spec fn next_state(is_over: bool, prev: State, left: ButtonState) -> State {
    match (is_over, prev, left) {
        (true, State::Normal, ButtonState::Down) => State::Normal,
        (true, _, ButtonState::Down) => State::Clicked,
        (true, _, ButtonState::Up) => State::Highlighted,
        (false, State::Clicked, ButtonState::Down) => State::Clicked,
        _ => State::Normal,
    }
}

/// Whether the step from `prev` to `next` is a click: the button went up over
/// the toggle after it had gone down over it.
pub open spec fn is_click(is_over: bool, prev: State, next: State) -> bool {
    is_over && prev == State::Clicked && next == State::Highlighted
}

/// Whether a frame that starts in `prev` ends in a click.
pub open spec fn clicks(is_over: bool, prev: State, left: ButtonState) -> bool {
    is_click(is_over, prev, next_state(is_over, prev, left))
}

/// The state of the toggle after this frame's pointer.
pub fn get_new_state(is_over: bool, prev: State, mouse: Mouse) -> (state: State)
    ensures
        state == next_state(is_over, prev, mouse.left),
{
    match (is_over, prev, mouse.left) {
        (true, State::Normal, ButtonState::Down) => State::Normal,
        (true, _, ButtonState::Down) => State::Clicked,
        (true, _, ButtonState::Up) => State::Highlighted,
        (false, State::Clicked, ButtonState::Down) => State::Clicked,
        _ => State::Normal,
    }
}

/// A frame ends in a click exactly when the button goes up over a toggle that
/// was pressed.
pub proof fn lemma_click_is_release_over_pressed(is_over: bool, prev: State, left: ButtonState)
    ensures
        clicks(is_over, prev, left) <==> (is_over && prev == State::Clicked && left
            == ButtonState::Up),
{
}

/// The button goes down over a toggle that the pointer was already over or
/// had pressed, and goes up over it: the second frame ends in a click, the
/// first does not.
pub proof fn lemma_press_and_release_over_clicks_once(prev: State)
    requires
        prev != State::Normal,
    ensures
        !clicks(true, prev, ButtonState::Down),
        clicks(true, next_state(true, prev, ButtonState::Down), ButtonState::Up),
        next_state(true, next_state(true, prev, ButtonState::Down), ButtonState::Up)
            == State::Highlighted,
{
}

/// The button goes down over the toggle and goes up elsewhere: neither frame
/// ends in a click.
pub proof fn lemma_release_elsewhere_never_clicks(prev: State)
    ensures
        !clicks(true, prev, ButtonState::Down),
        !clicks(false, next_state(true, prev, ButtonState::Down), ButtonState::Up),
{
}

/// The button goes down away from a toggle that was not pressed, and goes up
/// anywhere: neither frame ends in a click.
pub proof fn lemma_press_elsewhere_never_clicks(prev: State, release_over: bool)
    requires
        prev != State::Clicked,
    ensures
        !clicks(false, prev, ButtonState::Down),
        !clicks(release_over, next_state(false, prev, ButtonState::Down), ButtonState::Up),
{
}

/// The state of a toggle that is seen for the first time.
pub open spec fn spec_default() -> Widget {
    Widget::Toggle(State::Normal)
}

/// The state of a toggle that is seen for the first time.
#[verifier::when_used_as_spec(spec_default)]
pub fn default() -> (widget: Widget)
    ensures
        widget == spec_default(),
{
    Widget::Toggle(State::Normal)
}

/// The state that the store keeps for the toggle `ui_id`. A toggle that is
/// seen for the first time is entered into the store in its first state.
/// Where the store holds `ui_id` for a control of another kind, that is a
/// conflict, and the store stays as it is.
pub fn get_state(ui: &mut Ui, ui_id: UIID) -> (state: Result<State, Conflict>)
    ensures
        final(ui)@ == with_default(old(ui)@, ui_id, default()),
        final(ui).prev() == old(ui).prev(),
        keeps_kinds(old(ui)@, final(ui)@),
        state == (match final(ui)@[ui_id].0 {
            Widget::Toggle(state) => Ok::<State, Conflict>(state),
            _ => Err::<State, Conflict>(Conflict { ui_id }),
        }),
{
    match ui.get_widget(ui_id, default()) {
        Widget::Toggle(state) => Ok(state),
        _ => Err(Conflict { ui_id }),
    }
}

/// Keeps `new_state` in the store as the state of the toggle `ui_id`, with
/// the place where it was drawn. A toggle that the store does not know is
/// entered in its first state before. Where `new_state` is of another kind
/// than what the store then holds for `ui_id`, that is a conflict, and
/// neither the state nor the place is kept.
pub fn set_state(ui: &mut Ui, ui_id: UIID, new_state: Widget, pos: Point, dim: Dimensions) -> (done:
    Result<(), Conflict>)
    ensures
        conflicts(with_default(old(ui)@, ui_id, default()), ui_id, new_state) ==> done == Err::<
            (),
            Conflict,
        >(Conflict { ui_id }) && final(ui)@ == with_default(old(ui)@, ui_id, default())
            && final(ui).prev() == old(ui).prev(),
        !conflicts(with_default(old(ui)@, ui_id, default()), ui_id, new_state) ==> done is Ok
            && final(ui)@ == old(ui)@.insert(ui_id, (new_state, Placing::at(pos, dim)))
            && final(ui).prev() == ui_id,
        keeps_kinds(old(ui)@, final(ui)@),
{
    let _ = ui.get_widget(ui_id, default());
    proof {
        let data = with_default(old(ui)@, ui_id, default());
        assert(data.insert(ui_id, (new_state, Placing::at(pos, dim))) =~= old(ui)@.insert(
            ui_id,
            (new_state, Placing::at(pos, dim)),
        ));
    }
    ui.set_widget(ui_id, new_state, pos, dim)
}

/// A toggle as it is declared for one frame: a button that shows `value` and
/// asks for the other value when it is clicked.
pub struct Toggle<F> {
    pub ui_id: UIID,
    pub pos: Point,
    pub dim: Dimensions,
    pub maybe_callback: Option<F>,
    pub value: bool,
}

/// What the pointer did to a toggle in one frame.
#[derive(Debug, Clone, Copy, PartialEq, Eq)]
pub struct Frame {
    /// The state after the pointer, which the store now keeps.
    pub state: State,
    /// The value to call the callback with, where the frame ended in a click
    /// on a toggle that has a callback.
    pub call_with: Option<bool>,
}

impl<F> Toggle<F> {
    /// A toggle named `ui_id` that shows `value`: at the origin, 64 by 64
    /// pixels, without a callback.
    pub fn new(ui_id: UIID, value: bool) -> (toggle: Toggle<F>)
        ensures
            toggle == (Toggle::<F> {
                ui_id: ui_id,
                pos: [0, 0],
                dim: [64, 64],
                maybe_callback: None,
                value: value,
            }),
    {
        Toggle { ui_id: ui_id, pos: [0, 0], dim: [64, 64], maybe_callback: None, value: value }
    }

    /// Sets what is called with the other value when the toggle is clicked.
    pub fn callback(self, cb: F) -> (toggle: Toggle<F>)
        ensures
            toggle == (Toggle { maybe_callback: Some(cb), ..self }),
    {
        Toggle { maybe_callback: Some(cb), ..self }
    }

    /// The extent of the toggle.
    pub fn get_dim(&self) -> (dim: Dimensions)
        ensures
            dim == self.dim,
    {
        self.dim
    }

    /// Sets the extent of the toggle.
    pub fn dim(self, dim: Dimensions) -> (toggle: Toggle<F>)
        ensures
            toggle == (Toggle { dim: dim, ..self }),
    {
        Toggle { dim: dim, ..self }
    }

    /// Takes the pointer of one frame to the toggle: looks up the state that
    /// the store keeps for it, makes the step that follows for a pointer that
    /// is over the toggle or not, and keeps the new state with the place of
    /// the toggle. A click asks for the value that the toggle does not show:
    /// it is returned for the callback, if the toggle has one. Where the
    /// store holds the name of the toggle for a control of another kind, that
    /// is a conflict, and the store stays as it is.
    pub fn update(&self, ui: &mut Ui, mouse: Mouse) -> (frame: Result<Frame, Conflict>)
        ensures
            match with_default(old(ui)@, self.ui_id, default())[self.ui_id].0 {
                Widget::Toggle(prev) => {
                    let is_over = rectangle::contains(self.pos, mouse.pos, self.dim);
                    let state = next_state(is_over, prev, mouse.left);
                    &&& frame == Ok::<Frame, Conflict>(
                        Frame {
                            state: state,
                            call_with: if is_click(is_over, prev, state)
                                && self.maybe_callback is Some {
                                Some(!self.value)
                            } else {
                                None
                            },
                        },
                    )
                    &&& final(ui)@ == old(ui)@.insert(
                        self.ui_id,
                        (Widget::Toggle(state), Placing::at(self.pos, self.dim)),
                    )
                    &&& final(ui).prev() == self.ui_id
                },
                _ => {
                    &&& frame == Err::<Frame, Conflict>(Conflict { ui_id: self.ui_id })
                    &&& final(ui)@ == old(ui)@
                    &&& final(ui).prev() == old(ui).prev()
                },
            },
            keeps_kinds(old(ui)@, final(ui)@),
    {
        let prev = match get_state(ui, self.ui_id) {
            Ok(state) => state,
            Err(conflict) => {
                return Err(conflict);
            },
        };
        let is_over = rectangle::is_over(self.pos, mouse.pos, self.dim);
        let state = get_new_state(is_over, prev, mouse);
        let call_with = match (is_over, prev, state, &self.maybe_callback) {
            (true, State::Clicked, State::Highlighted, Some(_)) => Some(!self.value),
            _ => None,
        };
        match set_state(ui, self.ui_id, Widget::Toggle(state), self.pos, self.dim) {
            Ok(()) => Ok(Frame { state: state, call_with: call_with }),
            Err(conflict) => Err(conflict),
        }
    }
}

impl<F> Positionable for Toggle<F> {
    open spec fn moved_to(self, pos: Point) -> Self {
        Toggle { pos: pos, ..self }
    }

    fn point(self, pos: Point) -> (moved: Self) {
        Toggle { pos: pos, ..self }
    }
}

} // verus!
