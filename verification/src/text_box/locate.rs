use vstd::prelude::*;
use crate::dimensions::Dimensions;
use crate::label::{
    extent, lemma_width_bounds, lemma_width_split, lemma_width_take_next, width_of, Glyph,
};
use crate::point::{saturate, saturated, Point, Scalar};
use crate::rectangle::{contains, is_over};
use crate::text_box::{CursorX, Element, Idx};

verus! {

/// `idx`, or the length of `text` where `idx` lies behind it.
pub open spec fn within(idx: Idx, text: Seq<Glyph>) -> Idx {
    if idx <= text.len() {
        idx
    } else {
        text.len() as Idx
    }
}

/// Where the left edge of character `idx` is, if the text starts at `text_x`.
/// For `idx == text.len()` this is the right edge of the text.
pub open spec fn left_edge(text_x: Scalar, text: Seq<Glyph>, idx: int) -> int {
    text_x + width_of(text.take(idx))
}

/// The middle of character `idx`, rounded down to a whole pixel.
pub open spec fn midpoint(text_x: Scalar, text: Seq<Glyph>, idx: int) -> int {
    left_edge(text_x, text, idx) + text[idx].advance / 2
}

/// The first character from `from` on whose middle is at or right of `x`,
/// or the length of `text` if there is none.
pub open spec fn first_at_or_right(x: Scalar, text_x: Scalar, text: Seq<Glyph>, from: int) -> int
    decreases text.len() - from,
{
    if from < 0 || from >= text.len() {
        text.len() as int
    } else if x <= midpoint(text_x, text, from) {
        from
    } else {
        first_at_or_right(x, text_x, text, from + 1)
    }
}

/// The index at which a pointer at `x` puts the caret, and the position of
/// that index: index `0` for a pointer at or left of the text's start, else
/// the first character whose middle is at or right of the pointer, else the
/// end of the text, taken to be `text_w` wide.
pub open spec fn closest(x: Scalar, text_x: Scalar, text_w: Scalar, text: Seq<Glyph>) -> (
    int,
    int,
) {
    let idx = first_at_or_right(x, text_x, text, 0);
    if x <= text_x {
        (0, text_x as int)
    } else if idx < text.len() {
        (idx, left_edge(text_x, text, idx))
    } else {
        (idx, text_x + text_w)
    }
}

/// What the pointer at `mouse_pos` is over: nothing of a text box at `pos`
/// with extent `rect_dim`, or that box outside its inner area at `pad_pos`
/// with extent `pad_dim`, or the character of the text that is closest.
pub open spec fn element_at(
    pos: Point,
    mouse_pos: Point,
    rect_dim: Dimensions,
    pad_pos: Point,
    pad_dim: Dimensions,
    text_pos: Point,
    text_w: Scalar,
    text: Seq<Glyph>,
) -> Element {
    if !contains(pos, mouse_pos, rect_dim) {
        Element::Nill
    } else if !contains(pad_pos, mouse_pos, pad_dim) {
        Element::Rect
    } else {
        Element::Char(closest(mouse_pos[0], text_pos[0], text_w, text).0 as Idx)
    }
}

/// The left edges of the characters never go left as the index grows.
pub proof fn lemma_left_edge_monotonic(text_x: Scalar, text: Seq<Glyph>, i: int, j: int)
    requires
        0 <= i <= j <= text.len(),
    ensures
        text_x <= left_edge(text_x, text, i) <= left_edge(text_x, text, j),
{
    lemma_width_split(text.take(j), i);
    assert(text.take(j).take(i) =~= text.take(i));
    lemma_width_bounds(text.take(i));
    lemma_width_bounds(text.take(j).skip(i));
}

/// `first_at_or_right` is the least index from `from` on that is the length
/// of the text or whose middle is at or right of `x`.
pub proof fn lemma_first_at_or_right(x: Scalar, text_x: Scalar, text: Seq<Glyph>, from: int)
    requires
        0 <= from <= text.len(),
    ensures
        from <= first_at_or_right(x, text_x, text, from) <= text.len(),
        forall|j: int|
            from <= j < first_at_or_right(x, text_x, text, from) ==> x > #[trigger] midpoint(
                text_x,
                text,
                j,
            ),
        first_at_or_right(x, text_x, text, from) < text.len() ==> x <= midpoint(
            text_x,
            text,
            first_at_or_right(x, text_x, text, from),
        ),
    decreases text.len() - from,
{
    if from < text.len() && x > midpoint(text_x, text, from) {
        lemma_first_at_or_right(x, text_x, text, from + 1);
    }
}

/// An index that is the length of the text or has its middle at or right of
/// `x`, while every middle before it is left of `x`, is the one that
/// `first_at_or_right` finds.
pub proof fn lemma_first_at_or_right_is(x: Scalar, text_x: Scalar, text: Seq<Glyph>, idx: int)
    requires
        0 <= idx <= text.len(),
        forall|j: int| 0 <= j < idx ==> x > #[trigger] midpoint(text_x, text, j),
        idx < text.len() ==> x <= midpoint(text_x, text, idx),
    ensures
        first_at_or_right(x, text_x, text, 0) == idx,
{
    lemma_first_at_or_right(x, text_x, text, 0);
}

/// A pointer further right never gives an index further left.
pub proof fn lemma_closest_monotonic(
    x1: Scalar,
    x2: Scalar,
    text_x: Scalar,
    text_w: Scalar,
    text: Seq<Glyph>,
)
    requires
        x1 <= x2,
    ensures
        closest(x1, text_x, text_w, text).0 <= closest(x2, text_x, text_w, text).0,
{
    lemma_first_at_or_right(x1, text_x, text, 0);
    lemma_first_at_or_right(x2, text_x, text, 0);
}

/// A pointer at or left of the start of the text gives index `0` at the
/// start of the text.
pub proof fn lemma_closest_left_of_text(x: Scalar, text_x: Scalar, text_w: Scalar, text: Seq<Glyph>)
    requires
        x <= text_x,
    ensures
        closest(x, text_x, text_w, text) == (0int, text_x as int),
{
}

/// A pointer right of the end of the text gives the length of the text, at
/// the start of the text plus `text_w`.
pub proof fn lemma_closest_right_of_text(
    x: Scalar,
    text_x: Scalar,
    text_w: Scalar,
    text: Seq<Glyph>,
)
    requires
        x > text_x + width_of(text),
    ensures
        closest(x, text_x, text_w, text) == (text.len() as int, text_x + text_w),
{
    lemma_width_bounds(text);
    assert forall|j: int| 0 <= j < text.len() implies x > #[trigger] midpoint(text_x, text, j) by {
        lemma_width_take_next(text, j);
        lemma_left_edge_monotonic(text_x, text, j + 1, text.len() as int);
        assert(text.take(text.len() as int) =~= text);
    }
    lemma_first_at_or_right_is(x, text_x, text, text.len() as int);
}

/// A pointer at the left edge of character `idx` gives `idx` at that edge
/// again, provided that the character before `idx`, if there is one, has
/// some width. `text_w` is the width of the text.
pub proof fn lemma_closest_at_left_edge(idx: int, text_x: Scalar, text_w: Scalar, text: Seq<Glyph>)
    requires
        0 <= idx <= text.len(),
        idx == 0 || text[idx - 1].advance > 0,
        left_edge(text_x, text, idx) <= Scalar::MAX,
        text_w == width_of(text),
    ensures
        closest(left_edge(text_x, text, idx) as Scalar, text_x, text_w, text) == (
            idx,
            left_edge(text_x, text, idx),
        ),
{
    let x = left_edge(text_x, text, idx) as Scalar;
    lemma_left_edge_monotonic(text_x, text, idx, idx);
    assert forall|j: int| 0 <= j < idx implies x > #[trigger] midpoint(text_x, text, j) by {
        lemma_width_take_next(text, j);
        lemma_width_take_next(text, idx - 1);
        lemma_left_edge_monotonic(text_x, text, j, idx - 1);
        lemma_left_edge_monotonic(text_x, text, j + 1, idx);
    }
    lemma_first_at_or_right_is(x, text_x, text, idx);
    if idx > 0 {
        lemma_width_take_next(text, idx - 1);
        lemma_left_edge_monotonic(text_x, text, 0, idx - 1);
    }
    assert(text.take(0).len() == 0);
    assert(text.take(text.len() as int) =~= text);
}

/// Finds the position of the caret at `idx` in a text that starts at
/// `text_x`. An index behind the text counts as the end of the text.
pub fn cursor_position(idx: Idx, text_x: Scalar, text: &Vec<Glyph>) -> (at: (Idx, CursorX))
    ensures
        at.0 == within(idx, text@),
        at.1 == saturated(left_edge(text_x, text@, at.0 as int)),
{
    let idx: Idx = if idx > text.len() {
        text.len()
    } else {
        idx
    };
    proof {
        assert(text@.subrange(0, idx as int) =~= text@.take(idx as int));
    }
    (idx, saturate(text_x as i128 + extent(text, 0, idx)))
}

/// Finds the character that is closest to the pointer, and its position.
pub fn closest_idx(mouse_pos: Point, text_x: Scalar, text_w: Scalar, text: &Vec<Glyph>) -> (at: (
    Idx,
    CursorX,
))
    ensures
        at.0 == closest(mouse_pos[0], text_x, text_w, text@).0,
        at.1 == saturated(closest(mouse_pos[0], text_x, text_w, text@).1),
        at.0 <= text.len(),
{
    let x: Scalar = mouse_pos[0];
    proof {
        lemma_first_at_or_right(x, text_x, text@, 0);
    }
    if x <= text_x {
        return (0, text_x);
    }
    let mut prev_x: i128 = text_x as i128;
    let mut i: usize = 0;
    while i < text.len()
        invariant
            i <= text.len(),
            x == mouse_pos[0],
            x > text_x,
            prev_x == left_edge(text_x, text@, i as int),
            text_x <= prev_x <= text_x + i * u32::MAX,
            first_at_or_right(x, text_x, text@, 0) == first_at_or_right(x, text_x, text@, i as int),
        decreases text.len() - i,
    {
        let advance: u32 = text[i].advance;
        let right_x: i128 = prev_x + (advance / 2) as i128;
        if x as i128 <= right_x {
            return (i, saturate(prev_x));
        }
        proof {
            lemma_width_take_next(text@, i as int);
        }
        prev_x = prev_x + advance as i128;
        i = i + 1;
    }
    (text.len(), saturate(text_x as i128 + text_w as i128))
}

/// Finds what the pointer is over: nothing of the text box, its box outside
/// the inner area, or a character of its text.
pub fn over_elem(
    pos: Point,
    mouse_pos: Point,
    rect_dim: Dimensions,
    pad_pos: Point,
    pad_dim: Dimensions,
    text_pos: Point,
    text_w: Scalar,
    text: &Vec<Glyph>,
) -> (elem: Element)
    ensures
        elem == element_at(pos, mouse_pos, rect_dim, pad_pos, pad_dim, text_pos, text_w, text@),
{
    match is_over(pos, mouse_pos, rect_dim) {
        false => Element::Nill,
        true => match is_over(pad_pos, mouse_pos, pad_dim) {
            false => Element::Rect,
            true => {
                let (idx, _) = closest_idx(mouse_pos, text_pos[0], text_w, text);
                Element::Char(idx)
            },
        },
    }
}

} // verus!
