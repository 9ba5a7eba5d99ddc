use conrod::keyboard::Key;
use conrod::label::Glyph;
use conrod::mouse::{ButtonState, Mouse};
use conrod::position::Positionable;
use conrod::text_box::edit::{press_keys, type_text, Caret};
use conrod::text_box::{
    get_state, Anchor, Element, Frame, Layout, Selection, State, TextBox, Uncaptured, TEXT_PADDING,
};
use conrod::toggle;
use conrod::ui::{Conflict, Ui};
use conrod::widget::{Placing, Widget};

type Commit = fn(&mut String);

fn shown(text: &str) -> Vec<Glyph> {
    text.chars()
        .map(|ch| Glyph { ch, advance: if ch == 'i' { 4 } else { 10 } })
        .collect()
}

fn spelled(text: &[Glyph]) -> String {
    text.iter().map(|glyph| glyph.ch).collect()
}

fn at(pos: [i64; 2], left: ButtonState) -> Mouse {
    Mouse::new(pos, left, ButtonState::Up, ButtonState::Up)
}

fn capture(text_box: &TextBox<Commit>, ui: &mut Ui, text: &Vec<Glyph>, press: [i64; 2]) -> Frame {
    let hover = text_box.interact(ui, at(press, ButtonState::Up), text, 2).unwrap();
    text_box.finish(ui, hover.state, hover.caret).unwrap();
    let frame = text_box.interact(ui, at(press, ButtonState::Down), text, 2).unwrap();
    text_box.finish(ui, frame.state, frame.caret).unwrap();
    frame
}

#[test]
fn new_text_box_has_its_defaults() {
    let text_box = TextBox::<Commit>::new(11);
    assert_eq!(text_box.ui_id, 11);
    assert_eq!(text_box.font_size, 24);
    assert_eq!(text_box.pos, [0, 0]);
    assert_eq!(text_box.dim, [192, 48]);
    assert!(text_box.maybe_callback.is_none());
    assert_eq!(text_box.maybe_frame, None);
    assert_eq!(TEXT_PADDING, 5);
}

#[test]
fn builders_set_one_thing_each() {
    fn keep(_text: &mut String) {}
    let text_box = TextBox::new(11)
        .font_size(18)
        .frame(3)
        .dim([100, 30])
        .point([5, 6])
        .callback(keep as Commit);
    assert_eq!(text_box.ui_id, 11);
    assert_eq!(text_box.font_size, 18);
    assert_eq!(text_box.maybe_frame, Some(3));
    assert_eq!(text_box.get_dim(), [100, 30]);
    assert_eq!(text_box.pos, [5, 6]);
    assert!(text_box.maybe_callback.is_some());
    assert_eq!(text_box.frame_width(9), 3);
    assert_eq!(TextBox::<Commit>::new(1).frame_width(9), 9);
}

#[test]
fn layout_lies_inside_the_frame() {
    let text_box = TextBox::<Commit>::new(1).point([10, 20]);
    assert_eq!(
        text_box.layout(2),
        Layout { pad_pos: [12, 22], pad_dim: [188, 44], text_pos: [17, 32] }
    );
    assert_eq!(
        text_box.layout(0),
        Layout { pad_pos: [10, 20], pad_dim: [192, 48], text_pos: [15, 32] }
    );
}

#[test]
fn layout_rounds_half_a_pixel_down() {
    let odd = TextBox::<Commit>::new(1).dim([192, 49]).layout(2);
    assert_eq!(odd.pad_dim, [188, 45]);
    assert_eq!(odd.text_pos, [7, 12]);
    let low = TextBox::<Commit>::new(1).dim([192, 10]).layout(2);
    assert_eq!(low.pad_dim, [188, 6]);
    assert_eq!(low.text_pos, [7, -7]);
    let lower = TextBox::<Commit>::new(1).dim([192, 11]).layout(2);
    assert_eq!(lower.pad_dim, [188, 7]);
    assert_eq!(lower.text_pos, [7, -7]);
}

#[test]
fn layout_stops_at_the_ends_of_the_scalar_range() {
    let far = TextBox::<Commit>::new(1).point([i64::MAX - 1, 0]).dim([i64::MIN + 1, 48]);
    let layout = far.layout(2);
    assert_eq!(layout.pad_pos, [i64::MAX, 2]);
    assert_eq!(layout.pad_dim, [i64::MIN, 44]);
    assert_eq!(layout.text_pos, [i64::MAX, 12]);
}

#[test]
fn selection_rect_lies_behind_the_selected_characters() {
    let text_box = TextBox::<Commit>::new(1).point([3, 40]);
    let text = shown("abicd");
    assert_eq!(text_box.selection_rect(7, 1, 4, &text), ([17, 40], [24, 48]));
    assert_eq!(text_box.selection_rect(7, 0, 5, &text), ([7, 40], [44, 48]));
    assert_eq!(text_box.selection_rect(7, 2, 2, &text), ([27, 40], [0, 48]));
}

#[test]
fn selection_rect_counts_indices_behind_the_text_as_its_end() {
    let text_box = TextBox::<Commit>::new(1);
    let text = shown("abicd");
    assert_eq!(text_box.selection_rect(7, 3, 9, &text), ([31, 0], [20, 48]));
    assert_eq!(text_box.selection_rect(7, 8, 9, &text), ([51, 0], [0, 48]));
    assert_eq!(text_box.selection_rect(7, 4, 1, &text), ([41, 0], [0, 48]));
}

#[test]
fn a_text_box_seen_for_the_first_time_starts_normal() {
    let mut ui = Ui::new();
    let text_box = TextBox::<Commit>::new(1);
    let text = shown("abc");
    let frame = text_box.interact(&mut ui, at([300, 300], ButtonState::Up), &text, 2).unwrap();
    assert_eq!(frame.state, State::Uncaptured(Uncaptured::Normal));
    assert_eq!(frame.over, Element::Nill);
    assert_eq!(frame.text_w, 30);
    assert_eq!(frame.layout, text_box.layout(2));
    assert_eq!(frame.selection, None);
    assert_eq!(frame.caret, None);
    assert_eq!(ui.get_placing(1), Placing::NoPlace);
    assert_eq!(get_state(&mut ui, 1), Ok(State::Uncaptured(Uncaptured::Normal)));
}

#[test]
fn interact_leaves_the_store_to_finish() {
    let mut ui = Ui::new();
    let text_box = TextBox::<Commit>::new(1);
    let text = shown("abc");
    let frame = text_box.interact(&mut ui, at([20, 20], ButtonState::Up), &text, 2).unwrap();
    assert_eq!(frame.state, State::Uncaptured(Uncaptured::Highlighted));
    assert_eq!(get_state(&mut ui, 1), Ok(State::Uncaptured(Uncaptured::Normal)));
    assert_eq!(ui.get_prev_uiid(), 0);
    assert_eq!(text_box.finish(&mut ui, frame.state, frame.caret), Ok(frame.state));
    assert_eq!(get_state(&mut ui, 1), Ok(State::Uncaptured(Uncaptured::Highlighted)));
    assert_eq!(ui.get_placing(1), Placing::Place(0, 0, 192, 48));
    assert_eq!(ui.get_prev_uiid(), 1);
}

#[test]
fn a_press_on_a_character_puts_the_caret_there() {
    let mut ui = Ui::new();
    let text_box = TextBox::<Commit>::new(1);
    let text = shown("abc");
    let frame = capture(&text_box, &mut ui, &text, [20, 20]);
    assert_eq!(frame.over, Element::Char(1));
    assert_eq!(frame.state, State::Capturing(Selection::from_index(1)));
    assert_eq!(frame.caret, Some(Caret { idx: 1, x: 17 }));
    assert_eq!(frame.selection, None);
}

#[test]
fn a_press_on_the_frame_puts_the_caret_first() {
    let mut ui = Ui::new();
    let text_box = TextBox::<Commit>::new(1);
    let text = shown("abc");
    let frame = capture(&text_box, &mut ui, &text, [1, 20]);
    assert_eq!(frame.over, Element::Rect);
    assert_eq!(frame.state, State::Capturing(Selection::from_index(0)));
    assert_eq!(frame.caret, Some(Caret { idx: 0, x: 7 }));
}

#[test]
fn a_drag_selects_and_gives_the_rectangle_to_draw() {
    let mut ui = Ui::new();
    let text_box = TextBox::<Commit>::new(1);
    let text = shown("abicd");
    capture(&text_box, &mut ui, &text, [20, 20]);
    let drag = text_box.interact(&mut ui, at([40, 20], ButtonState::Down), &text, 2).unwrap();
    assert_eq!(drag.over, Element::Char(4));
    assert_eq!(drag.state, State::Capturing(Selection::from_range(1, 4)));
    assert_eq!(drag.caret, None);
    assert_eq!(drag.selection, Some(([17, 2], [24, 44])));
    text_box.finish(&mut ui, drag.state, drag.caret).unwrap();
    let release = text_box.interact(&mut ui, at([40, 20], ButtonState::Up), &text, 2).unwrap();
    assert_eq!(
        release.state,
        State::Capturing(Selection::from_range(1, 4).anchored(Anchor::Neither))
    );
    assert_eq!(release.selection, Some(([17, 2], [24, 44])));
}

#[test]
fn a_caret_behind_a_text_that_got_shorter_is_brought_to_its_end() {
    let mut ui = Ui::new();
    let text_box = TextBox::<Commit>::new(1);
    capture(&text_box, &mut ui, &shown("abicd"), [150, 20]);
    assert_eq!(get_state(&mut ui, 1), Ok(State::Capturing(Selection::from_index(5))));
    let shorter = shown("ab");
    let frame = text_box.interact(&mut ui, at([150, 20], ButtonState::Down), &shorter, 2).unwrap();
    assert_eq!(frame.over, Element::Char(2));
    assert_eq!(frame.state, State::Capturing(Selection::from_range(5, 2)));
    let frame = text_box.interact(&mut ui, at([300, 20], ButtonState::Up), &shorter, 2).unwrap();
    assert_eq!(
        frame.state,
        State::Capturing(Selection::from_index(5).anchored(Anchor::Neither))
    );
    assert_eq!(frame.caret, Some(Caret { idx: 2, x: 27 }));
}

#[test]
fn finish_moves_a_caret_and_nothing_else() {
    let mut ui = Ui::new();
    let text_box = TextBox::<Commit>::new(1);
    let caret = State::Capturing(Selection::from_index(1));
    assert_eq!(
        text_box.finish(&mut ui, caret, Some(Caret { idx: 4, x: 99 })),
        Ok(State::Capturing(Selection::from_index(4)))
    );
    assert_eq!(text_box.finish(&mut ui, caret, None), Ok(caret));
    let range = State::Capturing(Selection::from_range(1, 3));
    assert_eq!(text_box.finish(&mut ui, range, Some(Caret { idx: 4, x: 99 })), Ok(range));
    let normal = State::Uncaptured(Uncaptured::Normal);
    assert_eq!(text_box.finish(&mut ui, normal, Some(Caret { idx: 4, x: 99 })), Ok(normal));
    assert_eq!(get_state(&mut ui, 1), Ok(normal));
}

#[test]
fn a_text_box_under_the_name_of_a_toggle_is_a_conflict() {
    let mut ui = Ui::new();
    toggle::get_state(&mut ui, 1).unwrap();
    let text_box = TextBox::<Commit>::new(1);
    let text = shown("abc");
    assert_eq!(
        text_box.interact(&mut ui, at([20, 20], ButtonState::Up), &text, 2),
        Err(Conflict { ui_id: 1 })
    );
    assert_eq!(
        text_box.finish(&mut ui, State::Uncaptured(Uncaptured::Normal), None),
        Err(Conflict { ui_id: 1 })
    );
    assert_eq!(ui.get_widget(1, Widget::Toggle(toggle::State::Clicked)), toggle::default());
    assert_eq!(ui.get_placing(1), Placing::NoPlace);
}

#[test]
fn typing_into_an_empty_text_box_through_a_whole_frame() {
    let mut ui = Ui::new();
    let text_box = TextBox::<Commit>::new(1);
    let mut text = shown("");
    let frame = capture(&text_box, &mut ui, &text, [20, 20]);
    assert_eq!(frame.over, Element::Char(0));
    let mut caret = frame.caret.unwrap();
    assert_eq!(caret, Caret { idx: 0, x: 7 });
    let layout = frame.layout;
    type_text(&mut text, &mut caret, &vec![shown("hi")], layout.pad_pos[0], layout.pad_dim[0]);
    assert_eq!(press_keys(&mut text, &mut caret, &vec![], 0, false), None);
    assert_eq!(spelled(&text), "hi");
    assert_eq!(caret, Caret { idx: 2, x: 21 });
    assert_eq!(
        text_box.finish(&mut ui, frame.state, Some(caret)),
        Ok(State::Capturing(Selection::from_index(2)))
    );
    assert_eq!(get_state(&mut ui, 1), Ok(State::Capturing(Selection::from_index(2))));
}

#[test]
fn a_whole_frame_with_backspace_at_the_end_of_abc() {
    let mut ui = Ui::new();
    let text_box = TextBox::<Commit>::new(1);
    let mut text = shown("abc");
    let frame = capture(&text_box, &mut ui, &text, [150, 20]);
    assert_eq!(frame.over, Element::Char(3));
    let mut caret = frame.caret.unwrap();
    assert_eq!(caret, Caret { idx: 3, x: 37 });
    assert_eq!(press_keys(&mut text, &mut caret, &vec![Key::Backspace], 0, false), None);
    assert_eq!(spelled(&text), "ab");
    assert_eq!(caret, Caret { idx: 2, x: 27 });
    assert_eq!(
        text_box.finish(&mut ui, frame.state, Some(caret)),
        Ok(State::Capturing(Selection::from_index(2)))
    );
}

fn kept(_text: &mut String) {}

#[test]
fn edit_types_first_and_then_answers_to_the_keys() {
    let text_box = TextBox::<Commit>::new(1);
    let layout = text_box.layout(2);
    let mut text = shown("ac");
    let mut caret = Caret { idx: 1, x: 17 };
    let keys = vec![Key::Left, Key::Return, Key::Right, Key::Right];
    let next = text_box.edit(&layout, &mut text, &mut caret, &vec![shown("i"), shown("b")], &keys);
    assert_eq!(next, None);
    assert_eq!(spelled(&text), "aibc");
    assert_eq!(caret, Caret { idx: 4, x: 41 });
}

#[test]
fn edit_stops_for_a_commit_and_resume_goes_on_in_the_new_text() {
    let text_box = TextBox::new(1).callback(kept as Commit);
    let layout = text_box.layout(2);
    let mut text = shown("abc");
    let mut caret = Caret { idx: 3, x: 37 };
    let keys = vec![Key::Return, Key::Left, Key::Return, Key::Backspace];
    let next = text_box.edit(&layout, &mut text, &mut caret, &vec![shown("d")], &keys);
    assert_eq!(next, Some(1));
    assert_eq!(spelled(&text), "abcd");
    assert_eq!(caret, Caret { idx: 4, x: 47 });
    let mut text = shown("ai");
    let next = text_box.resume(&layout, &mut text, &mut caret, &keys, 1);
    assert_eq!(next, Some(3));
    assert_eq!(spelled(&text), "ai");
    assert_eq!(caret, Caret { idx: 1, x: 17 });
    let mut text = shown("");
    let next = text_box.resume(&layout, &mut text, &mut caret, &keys, 3);
    assert_eq!(next, None);
    assert_eq!(spelled(&text), "");
    assert_eq!(caret, Caret { idx: 0, x: 7 });
}

#[test]
fn edit_leaves_out_what_does_not_fit_into_the_inner_area() {
    let text_box = TextBox::<Commit>::new(1).dim([60, 48]);
    let layout = text_box.layout(2);
    assert_eq!(layout.pad_dim[0], 56);
    let mut text = shown("abc");
    let mut caret = Caret { idx: 3, x: 37 };
    let typed = vec![shown("d"), shown("ef"), shown("i")];
    assert_eq!(text_box.edit(&layout, &mut text, &mut caret, &typed, &vec![]), None);
    assert_eq!(spelled(&text), "abcd");
    assert_eq!(caret, Caret { idx: 4, x: 47 });
}
