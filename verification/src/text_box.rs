use vstd::prelude::*;
use crate::dimensions::Dimensions;
use crate::keyboard::Key;
use crate::label::{extent, width, width_of, FontSize, Glyph};
use crate::mouse::{ButtonState, Mouse};
use crate::point::{saturate, saturated, vec2_add, vec2_sub, Point, Scalar};
use crate::position::Positionable;
use crate::rectangle;
use crate::text_box::edit::{
    after_commit, after_keys, after_typing, press_keys, recommit, type_text, Caret,
};
use crate::text_box::locate::{element_at, left_edge, within};
use crate::ui::{conflicts, keeps_kinds, with_default, Conflict, Ui, UIID};
use crate::widget::{Placing, Widget};

pub mod edit;
pub mod locate;

pub use locate::{closest_idx, cursor_position, over_elem};

verus! {

/// An index into the characters of a text: `0` is before the first
/// character, the text's length is behind the last.
pub type Idx = usize;

/// The horizontal position of the caret.
pub type CursorX = Scalar;

/// The space between the inner area of a text box and its text, on the left
/// and on the right.
pub const TEXT_PADDING: Scalar = 5;

/// Which end of a selection follows the pointer while it is dragged.
#[derive(Debug, Clone, Copy, PartialEq, Eq, Structural)]
pub enum Anchor {
    Neither,
    Start,
    End,
}

/// The two states of a text box that does not hold the keyboard.
#[derive(Debug, Clone, Copy, PartialEq, Eq, Structural)]
pub enum Uncaptured {
    Highlighted,
    Normal,
}

/// What the pointer is over: a character of the text, nothing of the text
/// box, or the box outside its text area.
#[derive(Debug, Clone, Copy, PartialEq, Eq, Structural)]
pub enum Element {
    Char(Idx),
    Nill,
    Rect,
}

/// A range of characters, from `start` up to `end`, never backwards.
/// A range with `start == end` is a caret.
#[derive(Debug, Clone, Copy, PartialEq, Eq, Structural)]
pub struct Selection {
    anchor: Anchor,
    start: Idx,
    end: Idx,
}

/// The state of a text box between two frames.
#[derive(Debug, Clone, Copy, PartialEq, Eq, Structural)]
pub enum State {
    Capturing(Selection),
    Uncaptured(Uncaptured),
}

impl Selection {
    /// What holds of every selection: it does not run backwards.
    #[verifier::type_invariant]
    spec fn ordered(self) -> bool {
        self.start <= self.end
    }

    /// The end that follows the pointer.
    pub closed spec fn spec_anchor(self) -> Anchor {
        self.anchor
    }

    /// The index of the first character of the range.
    pub closed spec fn spec_start(self) -> Idx {
        self.start
    }

    /// The index behind the last character of the range.
    pub closed spec fn spec_end(self) -> Idx {
        self.end
    }

    /// A caret at `idx`, anchored at its start.
    pub closed spec fn spec_from_index(idx: Idx) -> Selection {
        Selection { anchor: Anchor::Start, start: idx, end: idx }
    }

    /// The range between two indices given in either order.
    pub closed spec fn spec_from_range(start: Idx, end: Idx) -> Selection {
        if start < end {
            Selection { anchor: Anchor::Start, start: start, end: end }
        } else {
            Selection { anchor: Anchor::End, start: end, end: start }
        }
    }

    /// The same range with another anchor.
    pub closed spec fn spec_anchored(self, anchor: Anchor) -> Selection {
        Selection { anchor: anchor, start: self.start, end: self.end }
    }

    /// A caret at `idx` with the anchor of this selection.
    pub closed spec fn spec_collapsed(self, idx: Idx) -> Selection {
        Selection { anchor: self.anchor, start: idx, end: idx }
    }

    /// The end that follows the pointer.
    #[verifier::when_used_as_spec(spec_anchor)]
    pub fn anchor(self) -> (anchor: Anchor)
        ensures
            anchor == self.spec_anchor(),
    {
        self.anchor
    }

    /// The index of the first character of the range. It is never behind `end`.
    #[verifier::when_used_as_spec(spec_start)]
    pub fn start(self) -> (start: Idx)
        ensures
            start == self.spec_start(),
            start <= self.spec_end(),
    {
        proof {
            use_type_invariant(&self);
        }
        self.start
    }

    /// The index behind the last character of the range. It is never before
    /// `start`.
    #[verifier::when_used_as_spec(spec_end)]
    pub fn end(self) -> (end: Idx)
        ensures
            end == self.spec_end(),
            self.spec_start() <= end,
    {
        proof {
            use_type_invariant(&self);
        }
        self.end
    }

    /// A caret at `idx`, anchored at its start.
    #[verifier::when_used_as_spec(spec_from_index)]
    pub fn from_index(idx: Idx) -> (selection: Selection)
        ensures
            selection == Selection::spec_from_index(idx),
            selection.anchor() == Anchor::Start,
            selection.start() == idx,
            selection.end() == idx,
    {
        Selection { anchor: Anchor::Start, start: idx, end: idx }
    }

    /// The range between two indices given in either order. Given in order
    /// (`start < end`) it is anchored at its start, otherwise at its end.
    #[verifier::when_used_as_spec(spec_from_range)]
    pub fn from_range(start: Idx, end: Idx) -> (selection: Selection)
        ensures
            selection == Selection::spec_from_range(start, end),
            selection.anchor() == (if start < end {
                Anchor::Start
            } else {
                Anchor::End
            }),
            selection.start() == (if start < end {
                start
            } else {
                end
            }),
            selection.end() == (if start < end {
                end
            } else {
                start
            }),
    {
        if start < end {
            Selection { anchor: Anchor::Start, start: start, end: end }
        } else {
            Selection { anchor: Anchor::End, start: end, end: start }
        }
    }

    /// The same range with another anchor.
    #[verifier::when_used_as_spec(spec_anchored)]
    pub fn anchored(self, anchor: Anchor) -> (selection: Selection)
        ensures
            selection == self.spec_anchored(anchor),
            selection.anchor() == anchor,
            selection.start() == self.start(),
            selection.end() == self.end(),
    {
        proof {
            use_type_invariant(&self);
        }
        Selection { anchor: anchor, start: self.start, end: self.end }
    }

    /// A caret at `idx` with the anchor of this selection.
    #[verifier::when_used_as_spec(spec_collapsed)]
    pub fn collapsed(self, idx: Idx) -> (selection: Selection)
        ensures
            selection == self.spec_collapsed(idx),
            selection.anchor() == self.anchor(),
            selection.start() == idx,
            selection.end() == idx,
    {
        Selection { anchor: self.anchor, start: idx, end: idx }
    }

    /// A selection is its anchor and its two ends, and nothing else.
    pub proof fn lemma_same_parts(a: Selection, b: Selection)
        requires
            a.anchor() == b.anchor(),
            a.start() == b.start(),
            a.end() == b.end(),
        ensures
            a == b,
    {
    }

    /// What each way of making a selection gives.
    pub proof fn lemma_parts(sel: Selection, a: Idx, b: Idx, anchor: Anchor)
        ensures
            Selection::from_index(a).anchor() == Anchor::Start,
            Selection::from_index(a).start() == a,
            Selection::from_index(a).end() == a,
            Selection::from_range(a, b).anchor() == (if a < b {
                Anchor::Start
            } else {
                Anchor::End
            }),
            Selection::from_range(a, b).start() == (if a < b {
                a
            } else {
                b
            }),
            Selection::from_range(a, b).end() == (if a < b {
                b
            } else {
                a
            }),
            sel.anchored(anchor).anchor() == anchor,
            sel.anchored(anchor).start() == sel.start(),
            sel.anchored(anchor).end() == sel.end(),
            sel.collapsed(a).anchor() == sel.anchor(),
            sel.collapsed(a).start() == a,
            sel.collapsed(a).end() == a,
    {
    }

    /// Every selection that a constructor makes runs forwards, and keeps
    /// doing so under another anchor or collapsed to a caret.
    pub proof fn lemma_made_in_order(sel: Selection, a: Idx, b: Idx, anchor: Anchor)
        ensures
            Selection::from_index(a).start() <= Selection::from_index(a).end(),
            Selection::from_range(a, b).start() <= Selection::from_range(a, b).end(),
            sel.start() <= sel.end() ==> sel.anchored(anchor).start() <= sel.anchored(
                anchor,
            ).end(),
            sel.collapsed(a).start() <= sel.collapsed(a).end(),
    {
    }

    /// The order in which the two ends are given decides the anchor only:
    /// the ends of the range are the same, and the anchors differ unless the
    /// two indices are equal.
    pub proof fn lemma_from_range_either_order(a: Idx, b: Idx)
        ensures
            Selection::from_range(a, b).start() == Selection::from_range(b, a).start(),
            Selection::from_range(a, b).end() == Selection::from_range(b, a).end(),
            a != b ==> Selection::from_range(a, b).anchor() != Selection::from_range(b, a).anchor(),
            a == b ==> Selection::from_range(a, b) == Selection::from_range(b, a),
    {
    }
}

impl State {
    /// How the box of a text box in this state is painted.
    pub open spec fn spec_as_rectangle_state(&self) -> rectangle::State {
        match *self {
            State::Capturing(_) => rectangle::State::Clicked,
            State::Uncaptured(Uncaptured::Highlighted) => rectangle::State::Highlighted,
            State::Uncaptured(Uncaptured::Normal) => rectangle::State::Normal,
        }
    }

    /// How the box of a text box in this state is painted: as pressed while
    /// it holds the keyboard, else as highlighted or normal.
    #[verifier::when_used_as_spec(spec_as_rectangle_state)]
    pub fn as_rectangle_state(&self) -> (state: rectangle::State)
        ensures
            state == self.spec_as_rectangle_state(),
    {
        match *self {
            State::Capturing(_) => rectangle::State::Clicked,
            State::Uncaptured(state) => match state {
                Uncaptured::Highlighted => rectangle::State::Highlighted,
                Uncaptured::Normal => rectangle::State::Normal,
            },
        }
    }
}

/// The state that follows `prev_state` in a frame in which the pointer is over
/// `over_elem` and its left button is as `left` says.
pub open spec fn next_state(over_elem: Element, prev_state: State, left: ButtonState) -> State {
    match (prev_state, left, over_elem) {
        (State::Capturing(prev), ButtonState::Down, Element::Nill) => if prev.anchor()
            == Anchor::Neither {
            State::Uncaptured(Uncaptured::Normal)
        } else {
            prev_state
        },
        (State::Capturing(prev), ButtonState::Down, Element::Rect) => if prev.anchor()
            == Anchor::Neither {
            State::Capturing(Selection::from_index(0))
        } else {
            prev_state
        },
        (State::Capturing(prev), ButtonState::Down, Element::Char(idx)) => match prev.anchor() {
            Anchor::Neither => State::Capturing(Selection::from_index(idx)),
            Anchor::Start => State::Capturing(Selection::from_range(prev.start(), idx)),
            Anchor::End => State::Capturing(Selection::from_range(prev.end(), idx)),
        },
        (State::Capturing(prev), ButtonState::Up, _) => State::Capturing(
            prev.anchored(Anchor::Neither),
        ),
        (State::Uncaptured(_), _, Element::Nill) => State::Uncaptured(Uncaptured::Normal),
        (State::Uncaptured(Uncaptured::Normal), ButtonState::Down, _) => prev_state,
        (State::Uncaptured(Uncaptured::Highlighted), ButtonState::Down, Element::Rect) => {
            State::Capturing(Selection::from_index(0))
        },
        (
            State::Uncaptured(Uncaptured::Highlighted),
            ButtonState::Down,
            Element::Char(idx),
        ) => State::Capturing(Selection::from_index(idx)),
        (State::Uncaptured(_), ButtonState::Up, _) => State::Uncaptured(Uncaptured::Highlighted),
    }
}

/// A step from a state whose selection runs forwards leads to a state whose
/// selection runs forwards.
pub proof fn lemma_next_state_in_order(over_elem: Element, prev_state: State, left: ButtonState)
    requires
        prev_state matches State::Capturing(prev) ==> prev.start() <= prev.end(),
    ensures
        next_state(over_elem, prev_state, left) matches State::Capturing(next) ==> next.start()
            <= next.end(),
{
}

/// The state of the text box after this frame's pointer.
pub fn get_new_state(over_elem: Element, prev_state: State, mouse: Mouse) -> (state: State)
    ensures
        state == next_state(over_elem, prev_state, mouse.left),
{
    match prev_state {
        State::Capturing(prev) => match mouse.left {
            ButtonState::Down => match over_elem {
                Element::Nill => match prev.anchor() {
                    Anchor::Neither => State::Uncaptured(Uncaptured::Normal),
                    _ => prev_state,
                },
                Element::Rect => match prev.anchor() {
                    Anchor::Neither => State::Capturing(Selection::from_index(0)),
                    _ => prev_state,
                },
                Element::Char(idx) => match prev.anchor() {
                    Anchor::Neither => State::Capturing(Selection::from_index(idx)),
                    Anchor::Start => State::Capturing(Selection::from_range(prev.start(), idx)),
                    Anchor::End => State::Capturing(Selection::from_range(prev.end(), idx)),
                },
            },
            ButtonState::Up => State::Capturing(prev.anchored(Anchor::Neither)),
        },
        State::Uncaptured(prev) => match mouse.left {
            ButtonState::Down => match over_elem {
                Element::Nill => State::Uncaptured(Uncaptured::Normal),
                Element::Rect => match prev {
                    Uncaptured::Normal => prev_state,
                    Uncaptured::Highlighted => State::Capturing(Selection::from_index(0)),
                },
                Element::Char(idx) => match prev {
                    Uncaptured::Normal => prev_state,
                    Uncaptured::Highlighted => State::Capturing(Selection::from_index(idx)),
                },
            },
            ButtonState::Up => match over_elem {
                Element::Nill => State::Uncaptured(Uncaptured::Normal),
                Element::Char(_) | Element::Rect => match prev {
                    Uncaptured::Normal => State::Uncaptured(Uncaptured::Highlighted),
                    Uncaptured::Highlighted => prev_state,
                },
            },
        },
    }
}

/// The state of a text box that is seen for the first time.
pub open spec fn spec_default() -> Widget {
    Widget::TextBox(State::Uncaptured(Uncaptured::Normal))
}

/// The state of a text box that is seen for the first time.
#[verifier::when_used_as_spec(spec_default)]
pub fn default() -> (widget: Widget)
    ensures
        widget == spec_default(),
{
    Widget::TextBox(State::Uncaptured(Uncaptured::Normal))
}

/// The state that the store keeps for the text box `ui_id`. A text box that
/// is seen for the first time is entered into the store in its first state.
/// Where the store holds `ui_id` for a control of another kind, that is a
/// conflict, and the store stays as it is.
pub fn get_state(ui: &mut Ui, ui_id: UIID) -> (state: Result<State, Conflict>)
    ensures
        final(ui)@ == with_default(old(ui)@, ui_id, default()),
        final(ui).prev() == old(ui).prev(),
        keeps_kinds(old(ui)@, final(ui)@),
        state == (match final(ui)@[ui_id].0 {
            Widget::TextBox(state) => Ok::<State, Conflict>(state),
            _ => Err::<State, Conflict>(Conflict { ui_id }),
        }),
{
    match ui.get_widget(ui_id, default()) {
        Widget::TextBox(state) => Ok(state),
        _ => Err(Conflict { ui_id }),
    }
}

/// Keeps `new_state` in the store as the state of the text box `ui_id`, with
/// the place where it was drawn. A text box that the store does not know is
/// entered in its first state before. Where `new_state` is of another kind
/// than what the store then holds for `ui_id`, that is a conflict, and
/// neither the state nor the place is kept.
pub fn set_state(ui: &mut Ui, ui_id: UIID, new_state: Widget, pos: Point, dim: Dimensions) -> (done:
    Result<(), Conflict>)
    ensures
        conflicts(with_default(old(ui)@, ui_id, default()), ui_id, new_state) ==> done == Err::<
            (),
            Conflict,
        >(Conflict { ui_id }) && final(ui)@ == with_default(old(ui)@, ui_id, default())
            && final(ui).prev() == old(ui).prev(),
        !conflicts(with_default(old(ui)@, ui_id, default()), ui_id, new_state) ==> done is Ok
            && final(ui)@ == old(ui)@.insert(ui_id, (new_state, Placing::at(pos, dim)))
            && final(ui).prev() == ui_id,
        keeps_kinds(old(ui)@, final(ui)@),
{
    let _ = ui.get_widget(ui_id, default());
    proof {
        let data = with_default(old(ui)@, ui_id, default());
        assert(data.insert(ui_id, (new_state, Placing::at(pos, dim))) =~= old(ui)@.insert(
            ui_id,
            (new_state, Placing::at(pos, dim)),
        ));
    }
    ui.set_widget(ui_id, new_state, pos, dim)
}

/// A text box as it is declared for one frame.
pub struct TextBox<F> {
    pub ui_id: UIID,
    pub font_size: FontSize,
    pub pos: Point,
    pub dim: Dimensions,
    pub maybe_callback: Option<F>,
    pub maybe_frame: Option<Scalar>,
}

/// Where the parts of a text box are: the inner area inside its frame, and
/// the start of its text.
#[derive(Debug, Clone, Copy, PartialEq, Eq)]
pub struct Layout {
    pub pad_pos: Point,
    pub pad_dim: Dimensions,
    pub text_pos: Point,
}

/// What the pointer did to a text box in one frame, and what is to be drawn
/// of it.
#[derive(Debug, Clone, Copy, PartialEq, Eq)]
pub struct Frame {
    /// Where the parts of the text box are.
    pub layout: Layout,
    /// The width of the text.
    pub text_w: Scalar,
    /// What the pointer is over.
    pub over: Element,
    /// The state after the pointer.
    pub state: State,
    /// The rectangle behind the selected characters, where some are selected.
    pub selection: Option<(Point, Dimensions)>,
    /// The caret, where the text box holds the keyboard and nothing is
    /// selected: only then does it answer to keys and typed text.
    pub caret: Option<Caret>,
}

/// The inner area and the start of the text of a text box at `pos` with
/// extent `dim`, a frame `frame_w` wide and a font `font_size` high. The text
/// is centred in the height of the inner area, half a pixel rounded down.
pub open spec fn layout_of(
    pos: Point,
    dim: Dimensions,
    frame_w: Scalar,
    font_size: FontSize,
) -> Layout {
    let pad_pos: Point = [saturated(pos[0] + frame_w), saturated(pos[1] + frame_w)];
    let pad_dim: Dimensions = [saturated(dim[0] - 2 * frame_w), saturated(dim[1] - 2 * frame_w)];
    Layout {
        pad_pos: pad_pos,
        pad_dim: pad_dim,
        text_pos: [
            saturated(pad_pos[0] + TEXT_PADDING),
            saturated(pad_pos[1] + (pad_dim[1] - font_size) / 2),
        ],
    }
}

/// The rectangle behind the characters from `start` up to `end` of a text
/// that starts at `text_x`, for a text box at height `y` that is `h` high.
/// Indices behind the text count as its end.
pub open spec fn selection_rect_of(
    y: Scalar,
    h: Scalar,
    text_x: Scalar,
    start: Idx,
    end: Idx,
    text: Seq<Glyph>,
) -> (Point, Dimensions) {
    let from = within(start, text);
    let to = within(end, text);
    let selected = if from <= to {
        text.subrange(from as int, to as int)
    } else {
        Seq::<Glyph>::empty()
    };
    ([saturated(left_edge(text_x, text, from as int)), y], [saturated(width_of(selected)), h])
}

/// The rectangle to be drawn behind the selected characters of a text box in
/// `state`: none unless some are selected, else their rectangle inside a
/// frame `frame_w` wide.
pub open spec fn selection_of(
    state: State,
    pos: Point,
    dim: Dimensions,
    frame_w: Scalar,
    text_x: Scalar,
    text: Seq<Glyph>,
) -> Option<(Point, Dimensions)> {
    match state {
        State::Capturing(selection) if selection.start() != selection.end() => {
            let (at, extent) = selection_rect_of(
                pos[1],
                dim[1],
                text_x,
                selection.start(),
                selection.end(),
                text,
            );
            Some(
                (
                    [at[0], saturated(at[1] + frame_w)],
                    [extent[0], saturated(extent[1] - 2 * frame_w)],
                ),
            )
        },
        _ => None,
    }
}

/// The caret of a text box in `state`: none unless the text box holds the
/// keyboard and nothing is selected.
pub open spec fn caret_of(state: State, text_x: Scalar, text: Seq<Glyph>) -> Option<Caret> {
    match state {
        State::Capturing(selection) if selection.start() == selection.end() => {
            let idx = within(selection.start(), text);
            Some(Caret { idx: idx, x: saturated(left_edge(text_x, text, idx as int)) })
        },
        _ => None,
    }
}

/// The state of a text box at the end of a frame that left the caret at
/// `caret`: a state that is a caret has moved there, any other is as it was.
pub open spec fn state_with_caret(state: State, caret: Option<Caret>) -> State {
    match (state, caret) {
        (State::Capturing(selection), Some(caret)) if selection.start() == selection.end() => {
            State::Capturing(selection.collapsed(caret.idx))
        },
        _ => state,
    }
}

impl<F> TextBox<F> {
    /// A text box named `ui_id`: at the origin, 192 by 48 pixels, with a font
    /// of 24 pixels, and with neither a frame width nor a callback of its own.
    pub fn new(ui_id: UIID) -> (text_box: TextBox<F>)
        ensures
            text_box == (TextBox::<F> {
                ui_id: ui_id,
                font_size: 24,
                pos: [0, 0],
                dim: [192, 48],
                maybe_callback: None,
                maybe_frame: None,
            }),
    {
        TextBox {
            ui_id: ui_id,
            font_size: 24,
            pos: [0, 0],
            dim: [192, 48],
            maybe_callback: None,
            maybe_frame: None,
        }
    }

    /// Sets the size of the font.
    pub fn font_size(self, font_size: FontSize) -> (text_box: TextBox<F>)
        ensures
            text_box == (TextBox { font_size: font_size, ..self }),
    {
        TextBox { font_size: font_size, ..self }
    }

    /// Sets the width of the frame.
    pub fn frame(self, width: Scalar) -> (text_box: TextBox<F>)
        ensures
            text_box == (TextBox { maybe_frame: Some(width), ..self }),
    {
        TextBox { maybe_frame: Some(width), ..self }
    }

    /// Sets what the text is committed to when `Return` is pressed.
    pub fn callback(self, cb: F) -> (text_box: TextBox<F>)
        ensures
            text_box == (TextBox { maybe_callback: Some(cb), ..self }),
    {
        TextBox { maybe_callback: Some(cb), ..self }
    }

    /// The extent of the text box.
    pub fn get_dim(&self) -> (dim: Dimensions)
        ensures
            dim == self.dim,
    {
        self.dim
    }

    /// Sets the extent of the text box.
    pub fn dim(self, dim: Dimensions) -> (text_box: TextBox<F>)
        ensures
            text_box == (TextBox { dim: dim, ..self }),
    {
        TextBox { dim: dim, ..self }
    }

    /// The width of the frame: the one set for this text box, or else
    /// `default`.
    pub open spec fn spec_frame_width(&self, default: Scalar) -> Scalar {
        match self.maybe_frame {
            Some(width) => width,
            None => default,
        }
    }

    /// The width of the frame: the one set for this text box, or else
    /// `default`.
    #[verifier::when_used_as_spec(spec_frame_width)]
    pub fn frame_width(&self, default: Scalar) -> (width: Scalar)
        ensures
            width == self.spec_frame_width(default),
    {
        match self.maybe_frame {
            Some(width) => width,
            None => default,
        }
    }

    /// Finds the inner area and the start of the text for a frame `frame_w`
    /// wide.
    pub fn layout(&self, frame_w: Scalar) -> (layout: Layout)
        ensures
            layout == layout_of(self.pos, self.dim, frame_w, self.font_size),
    {
        let frame_w: i128 = frame_w as i128;
        let frame_w2: i128 = frame_w * 2;
        let pad_pos = vec2_add([self.pos[0] as i128, self.pos[1] as i128], [frame_w, frame_w]);
        let pad_dim = vec2_sub([self.dim[0] as i128, self.dim[1] as i128], [frame_w2, frame_w2]);
        let pad_x: Scalar = saturate(pad_pos[0]);
        let pad_y: Scalar = saturate(pad_pos[1]);
        let pad_w: Scalar = saturate(pad_dim[0]);
        let pad_h: Scalar = saturate(pad_dim[1]);
        let spare: i128 = pad_h as i128 - self.font_size as i128;
        let half: i128 = if spare >= 0 {
            spare / 2
        } else {
            -((1 - spare) / 2)
        };
        Layout {
            pad_pos: [pad_x, pad_y],
            pad_dim: [pad_w, pad_h],
            text_pos: [
                saturate(pad_x as i128 + TEXT_PADDING as i128),
                saturate(pad_y as i128 + half),
            ],
        }
    }

    /// Finds the rectangle behind the characters from `start` up to `end` of
    /// a text that starts at `text_x`: as high as the text box.
    pub fn selection_rect(&self, text_x: Scalar, start: Idx, end: Idx, text: &Vec<Glyph>) -> (rect:
        (Point, Dimensions))
        ensures
            rect == selection_rect_of(self.pos[1], self.dim[1], text_x, start, end, text@),
    {
        let from: Idx = if start > text.len() {
            text.len()
        } else {
            start
        };
        let to: Idx = if end > text.len() {
            text.len()
        } else {
            end
        };
        proof {
            assert(text@.subrange(0, from as int) =~= text@.take(from as int));
        }
        let x: Scalar = saturate(text_x as i128 + extent(text, 0, from));
        let selected_w: Scalar = if from <= to {
            saturate(extent(text, from, to))
        } else {
            0
        };
        ([x, self.pos[1]], [selected_w, self.dim[1]])
    }

    /// Takes the pointer of one frame to the text box: looks up the state
    /// that the store keeps for it, finds what the pointer is over in a text
    /// box with a frame `frame_w` wide, and makes the step that follows. The
    /// new state is returned with what is to be drawn; the store keeps the
    /// old one until `finish`. A text box that is seen for the first time is
    /// entered into the store. Where the store holds the name of the text box
    /// for a control of another kind, that is a conflict, and the store stays
    /// as it is.
    pub fn interact(&self, ui: &mut Ui, mouse: Mouse, text: &Vec<Glyph>, frame_w: Scalar) -> (frame:
        Result<Frame, Conflict>)
        ensures
            final(ui)@ == with_default(old(ui)@, self.ui_id, default()),
            final(ui).prev() == old(ui).prev(),
            keeps_kinds(old(ui)@, final(ui)@),
            match final(ui)@[self.ui_id].0 {
                Widget::TextBox(prev_state) => frame matches Ok(frame) && {
                    let layout = layout_of(self.pos, self.dim, frame_w, self.font_size);
                    &&& frame.layout == layout
                    &&& frame.text_w == saturated(width_of(text@))
                    &&& frame.over == element_at(
                        self.pos,
                        mouse.pos,
                        self.dim,
                        layout.pad_pos,
                        layout.pad_dim,
                        layout.text_pos,
                        frame.text_w,
                        text@,
                    )
                    &&& frame.state == next_state(frame.over, prev_state, mouse.left)
                    &&& frame.selection == selection_of(
                        frame.state,
                        self.pos,
                        self.dim,
                        frame_w,
                        layout.text_pos[0],
                        text@,
                    )
                    &&& frame.caret == caret_of(frame.state, layout.text_pos[0], text@)
                },
                _ => frame == Err::<Frame, Conflict>(Conflict { ui_id: self.ui_id }),
            },
    {
        let prev_state = match get_state(ui, self.ui_id) {
            Ok(state) => state,
            Err(conflict) => {
                return Err(conflict);
            },
        };
        let layout = self.layout(frame_w);
        let text_x: Scalar = layout.text_pos[0];
        let text_w: Scalar = width(text);
        let over = over_elem(
            self.pos,
            mouse.pos,
            self.dim,
            layout.pad_pos,
            layout.pad_dim,
            layout.text_pos,
            text_w,
            text,
        );
        let state = get_new_state(over, prev_state, mouse);
        let mut selection: Option<(Point, Dimensions)> = None;
        let mut caret: Option<Caret> = None;
        if let State::Capturing(selected) = state {
            if selected.start() != selected.end() {
                let (at, extent) = self.selection_rect(
                    text_x,
                    selected.start(),
                    selected.end(),
                    text,
                );
                selection = Some(
                    (
                        [at[0], saturate(at[1] as i128 + frame_w as i128)],
                        [extent[0], saturate(extent[1] as i128 - 2 * (frame_w as i128))],
                    ),
                );
            } else {
                let (idx, x) = cursor_position(selected.start(), text_x, text);
                caret = Some(Caret { idx: idx, x: x });
            }
        }
        Ok(
            Frame {
                layout: layout,
                text_w: text_w,
                over: over,
                state: state,
                selection: selection,
                caret: caret,
            },
        )
    }

    /// Takes the typed text and the keys of one frame to a text box that holds
    /// the keyboard, with nothing selected and its caret at `caret`: first the
    /// fragments that were typed go into `text`, as far as they fit into the
    /// inner area of `layout`, then the keys are answered to, up to the first
    /// that asks for the text to be committed, if there is a callback to
    /// commit it to. For such a key the index behind it is returned: the
    /// caller calls the callback and goes on with `resume` from that index.
    /// `None` says that all keys are done.
    pub fn edit(
        &self,
        layout: &Layout,
        text: &mut Vec<Glyph>,
        caret: &mut Caret,
        fragments: &Vec<Vec<Glyph>>,
        keys: &Vec<Key>,
    ) -> (resume: Option<usize>)
        ensures
            ({
                let typed = after_typing(
                    old(text)@,
                    *old(caret),
                    fragments@,
                    layout.pad_pos[0],
                    layout.pad_dim[0],
                );
                let pressed = after_keys(typed.0, typed.1, keys@, 0, self.maybe_callback is Some);
                &&& final(text)@ == pressed.0
                &&& *final(caret) == pressed.1
                &&& match resume {
                    Some(next) => pressed.2 == Some(next as int),
                    None => pressed.2 is None,
                }
            }),
            old(caret).idx <= old(text).len() ==> final(caret).idx <= final(text).len(),
    {
        type_text(text, caret, fragments, layout.pad_pos[0], layout.pad_dim[0]);
        press_keys(text, caret, keys, 0, self.maybe_callback.is_some())
    }

    /// Goes on with the keys of a frame after the text was committed and came
    /// back as `text`: the caret is brought back into the text and drawn at
    /// its end, then the keys from `keys[from]` on are answered to as in
    /// `edit`.
    pub fn resume(
        &self,
        layout: &Layout,
        text: &mut Vec<Glyph>,
        caret: &mut Caret,
        keys: &Vec<Key>,
        from: usize,
    ) -> (resume: Option<usize>)
        ensures
            ({
                let pressed = after_keys(
                    old(text)@,
                    after_commit(old(text)@, *old(caret), layout.text_pos[0]),
                    keys@,
                    from as int,
                    self.maybe_callback is Some,
                );
                &&& final(text)@ == pressed.0
                &&& *final(caret) == pressed.1
                &&& match resume {
                    Some(next) => pressed.2 == Some(next as int),
                    None => pressed.2 is None,
                }
            }),
            final(caret).idx <= final(text).len(),
    {
        recommit(text, caret, layout.text_pos[0]);
        press_keys(text, caret, keys, from, self.maybe_callback.is_some())
    }

    /// Ends the frame of the text box: a state that is a caret follows the
    /// caret to where the keys and the typed text of the frame have left it,
    /// and the store keeps the state with the place of the text box. The
    /// state that was kept is returned. Where the store holds the name of the
    /// text box for a control of another kind, that is a conflict, and
    /// nothing is kept.
    pub fn finish(&self, ui: &mut Ui, state: State, caret: Option<Caret>) -> (kept: Result<
        State,
        Conflict,
    >)
        ensures
            conflicts(old(ui)@, self.ui_id, default()) ==> kept == Err::<State, Conflict>(
                Conflict { ui_id: self.ui_id },
            ) && final(ui)@ == old(ui)@ && final(ui).prev() == old(ui).prev(),
            !conflicts(old(ui)@, self.ui_id, default()) ==> kept == Ok::<State, Conflict>(
                state_with_caret(state, caret),
            ) && final(ui)@ == old(ui)@.insert(
                self.ui_id,
                (Widget::TextBox(state_with_caret(state, caret)), Placing::at(self.pos, self.dim)),
            ) && final(ui).prev() == self.ui_id,
            keeps_kinds(old(ui)@, final(ui)@),
    {
        let new_state = match (state, caret) {
            (State::Capturing(selection), Some(caret)) => if selection.start() == selection.end() {
                State::Capturing(selection.collapsed(caret.idx))
            } else {
                state
            },
            _ => state,
        };
        match set_state(ui, self.ui_id, Widget::TextBox(new_state), self.pos, self.dim) {
            Ok(()) => Ok(new_state),
            Err(conflict) => Err(conflict),
        }
    }
}

impl<F> Positionable for TextBox<F> {
    open spec fn moved_to(self, pos: Point) -> Self {
        TextBox { pos: pos, ..self }
    }

    fn point(self, pos: Point) -> (moved: Self) {
        TextBox { pos: pos, ..self }
    }
}

} // verus!
