use conrod::mouse::{ButtonState, Mouse};
use conrod::rectangle;
use conrod::text_box::{get_new_state, Anchor, Element, Selection, State, Uncaptured};

fn mouse_with(left: ButtonState) -> Mouse {
    Mouse::new([0, 0], left, ButtonState::Up, ButtonState::Up)
}

fn step(over: Element, prev: State, left: ButtonState) -> State {
    get_new_state(over, prev, mouse_with(left))
}

fn capturing(anchor: Anchor, start: usize, end: usize) -> State {
    State::Capturing(Selection::from_range(start, end).anchored(anchor))
}

const NORMAL: State = State::Uncaptured(Uncaptured::Normal);
const HIGHLIGHTED: State = State::Uncaptured(Uncaptured::Highlighted);

#[test]
fn from_index_is_a_caret_anchored_at_its_start() {
    let caret = Selection::from_index(4);
    assert_eq!(caret.anchor(), Anchor::Start);
    assert_eq!(caret.start(), 4);
    assert_eq!(caret.end(), 4);
}

#[test]
fn from_range_in_order_is_anchored_at_its_start() {
    let range = Selection::from_range(2, 7);
    assert_eq!(range.anchor(), Anchor::Start);
    assert_eq!(range.start(), 2);
    assert_eq!(range.end(), 7);
}

#[test]
fn from_range_out_of_order_swaps_and_is_anchored_at_its_end() {
    let range = Selection::from_range(7, 2);
    assert_eq!(range.anchor(), Anchor::End);
    assert_eq!(range.start(), 2);
    assert_eq!(range.end(), 7);
}

#[test]
fn from_range_of_equal_indices_is_anchored_at_its_end() {
    let range = Selection::from_range(3, 3);
    assert_eq!(range.anchor(), Anchor::End);
    assert_eq!(range.start(), 3);
    assert_eq!(range.end(), 3);
}

#[test]
fn from_range_has_the_same_ends_in_either_order() {
    for a in 0..6usize {
        for b in 0..6usize {
            let ab = Selection::from_range(a, b);
            let ba = Selection::from_range(b, a);
            assert!(ab.start() <= ab.end());
            assert_eq!(ab.start(), ba.start());
            assert_eq!(ab.end(), ba.end());
            assert_eq!(ab.anchor() != ba.anchor(), a != b);
        }
    }
}

#[test]
fn anchored_and_collapsed_keep_what_they_do_not_set() {
    let range = Selection::from_range(2, 7);
    let free = range.anchored(Anchor::Neither);
    assert_eq!(free.anchor(), Anchor::Neither);
    assert_eq!((free.start(), free.end()), (2, 7));
    let caret = free.collapsed(5);
    assert_eq!(caret.anchor(), Anchor::Neither);
    assert_eq!((caret.start(), caret.end()), (5, 5));
}

#[test]
fn capturing_without_anchor_pressed_outside_lets_go() {
    let prev = capturing(Anchor::Neither, 2, 5);
    assert_eq!(step(Element::Nill, prev, ButtonState::Down), NORMAL);
}

#[test]
fn capturing_without_anchor_pressed_on_the_box_puts_the_caret_first() {
    let prev = capturing(Anchor::Neither, 2, 5);
    assert_eq!(
        step(Element::Rect, prev, ButtonState::Down),
        State::Capturing(Selection::from_index(0))
    );
}

#[test]
fn capturing_without_anchor_pressed_on_a_character_puts_the_caret_there() {
    let prev = capturing(Anchor::Neither, 2, 5);
    assert_eq!(
        step(Element::Char(3), prev, ButtonState::Down),
        State::Capturing(Selection::from_index(3))
    );
}

#[test]
fn capturing_anchored_at_start_drags_from_its_start() {
    let prev = capturing(Anchor::Start, 2, 5);
    assert_eq!(
        step(Element::Char(8), prev, ButtonState::Down),
        State::Capturing(Selection::from_range(2, 8))
    );
    let back = step(Element::Char(1), prev, ButtonState::Down);
    assert_eq!(back, State::Capturing(Selection::from_range(2, 1)));
    match back {
        State::Capturing(selection) => {
            assert_eq!(selection.anchor(), Anchor::End);
            assert_eq!((selection.start(), selection.end()), (1, 2));
        }
        State::Uncaptured(_) => panic!("the text box let go of the keyboard"),
    }
}

#[test]
fn capturing_anchored_at_end_drags_from_its_end() {
    let prev = capturing(Anchor::End, 2, 5);
    assert_eq!(
        step(Element::Char(8), prev, ButtonState::Down),
        State::Capturing(Selection::from_range(5, 8))
    );
    assert_eq!(
        step(Element::Char(1), prev, ButtonState::Down),
        State::Capturing(Selection::from_range(5, 1))
    );
}

#[test]
fn capturing_with_anchor_dragged_off_the_text_stays() {
    for anchor in [Anchor::Start, Anchor::End] {
        let prev = capturing(anchor, 2, 5);
        assert_eq!(step(Element::Nill, prev, ButtonState::Down), prev);
        assert_eq!(step(Element::Rect, prev, ButtonState::Down), prev);
    }
}

#[test]
fn capturing_released_drops_the_anchor_and_keeps_the_range() {
    for anchor in [Anchor::Neither, Anchor::Start, Anchor::End] {
        for over in [Element::Nill, Element::Rect, Element::Char(4)] {
            let prev = capturing(anchor, 2, 5);
            assert_eq!(
                step(over, prev, ButtonState::Up),
                capturing(Anchor::Neither, 2, 5)
            );
        }
    }
}

#[test]
fn uncaptured_with_the_pointer_outside_is_normal() {
    for prev in [NORMAL, HIGHLIGHTED] {
        for left in [ButtonState::Down, ButtonState::Up] {
            assert_eq!(step(Element::Nill, prev, left), NORMAL);
        }
    }
}

#[test]
fn uncaptured_normal_pressed_on_the_box_stays_normal() {
    assert_eq!(step(Element::Rect, NORMAL, ButtonState::Down), NORMAL);
    assert_eq!(step(Element::Char(2), NORMAL, ButtonState::Down), NORMAL);
}

#[test]
fn uncaptured_highlighted_pressed_takes_the_keyboard() {
    assert_eq!(
        step(Element::Rect, HIGHLIGHTED, ButtonState::Down),
        State::Capturing(Selection::from_index(0))
    );
    assert_eq!(
        step(Element::Char(6), HIGHLIGHTED, ButtonState::Down),
        State::Capturing(Selection::from_index(6))
    );
}

#[test]
fn uncaptured_with_the_pointer_over_and_the_button_up_is_highlighted() {
    for prev in [NORMAL, HIGHLIGHTED] {
        assert_eq!(step(Element::Rect, prev, ButtonState::Up), HIGHLIGHTED);
        assert_eq!(step(Element::Char(0), prev, ButtonState::Up), HIGHLIGHTED);
    }
}

#[test]
fn every_step_keeps_the_selection_in_order() {
    let prevs = [
        NORMAL,
        HIGHLIGHTED,
        capturing(Anchor::Neither, 3, 6),
        capturing(Anchor::Start, 3, 6),
        capturing(Anchor::End, 3, 6),
        capturing(Anchor::Start, 4, 4),
    ];
    let overs = [
        Element::Nill,
        Element::Rect,
        Element::Char(0),
        Element::Char(3),
        Element::Char(5),
        Element::Char(9),
    ];
    for prev in prevs {
        for over in overs {
            for left in [ButtonState::Down, ButtonState::Up] {
                if let State::Capturing(selection) = step(over, prev, left) {
                    assert!(selection.start() <= selection.end());
                }
            }
        }
    }
}

#[test]
fn a_text_box_that_holds_the_keyboard_is_painted_as_pressed() {
    assert_eq!(
        capturing(Anchor::Neither, 1, 2).as_rectangle_state(),
        rectangle::State::Clicked
    );
    assert_eq!(
        capturing(Anchor::Start, 0, 0).as_rectangle_state(),
        rectangle::State::Clicked
    );
    assert_eq!(HIGHLIGHTED.as_rectangle_state(), rectangle::State::Highlighted);
    assert_eq!(NORMAL.as_rectangle_state(), rectangle::State::Normal);
}
