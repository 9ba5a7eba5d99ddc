use vstd::prelude::*;
use crate::point::{saturate, saturated, Scalar};

verus! {

/// The size of a font, in pixels.
pub type FontSize = u32;

/// A character together with its advance width at the font size in use:
/// the distance from its left edge to the left edge of the character after it.
#[derive(Debug, Clone, Copy, PartialEq, Eq, Structural)]
pub struct Glyph {
    pub ch: char,
    pub advance: u32,
}

/// The sum of the advance widths of `text`.
pub open spec fn width_of(text: Seq<Glyph>) -> int
    decreases text.len(),
{
    if text.len() == 0 {
        0
    } else {
        width_of(text.drop_last()) + text.last().advance
    }
}

/// A text is at least as wide as nothing and at most as wide as its widest
/// possible characters.
pub proof fn lemma_width_bounds(text: Seq<Glyph>)
    ensures
        0 <= width_of(text) <= text.len() * u32::MAX,
    decreases text.len(),
{
    if text.len() > 0 {
        lemma_width_bounds(text.drop_last());
    }
}

/// The width of two texts joined is the sum of their widths.
pub proof fn lemma_width_concat(a: Seq<Glyph>, b: Seq<Glyph>)
    ensures
        width_of(a + b) == width_of(a) + width_of(b),
    decreases b.len(),
{
    if b.len() == 0 {
        assert(a + b =~= a);
    } else {
        assert((a + b).drop_last() =~= a + b.drop_last());
        lemma_width_concat(a, b.drop_last());
    }
}

/// Cutting a text in two leaves the sum of the widths unchanged.
pub proof fn lemma_width_split(text: Seq<Glyph>, at: int)
    requires
        0 <= at <= text.len(),
    ensures
        width_of(text) == width_of(text.take(at)) + width_of(text.skip(at)),
{
    assert(text =~= text.take(at) + text.skip(at));
    lemma_width_concat(text.take(at), text.skip(at));
}

/// The first `i + 1` characters are wider than the first `i` by the advance
/// of character `i`.
pub proof fn lemma_width_take_next(text: Seq<Glyph>, i: int)
    requires
        0 <= i < text.len(),
    ensures
        width_of(text.take(i + 1)) == width_of(text.take(i)) + text[i].advance,
{
    assert(text.take(i + 1).drop_last() =~= text.take(i));
}

/// The exact width of the characters of `text` from `from` up to `to`.
pub(crate) fn extent(text: &Vec<Glyph>, from: usize, to: usize) -> (w: i128)
    requires
        from <= to <= text.len(),
    ensures
        w == width_of(text@.subrange(from as int, to as int)),
        0 <= w <= (to - from) * u32::MAX,
{
    let mut w: i128 = 0;
    let mut i: usize = from;
    while i < to
        invariant
            from <= i <= to <= text.len(),
            w == width_of(text@.subrange(from as int, i as int)),
            0 <= w <= (i - from) * u32::MAX,
        decreases to - i,
    {
        proof {
            assert(text@.subrange(from as int, i + 1).drop_last() =~= text@.subrange(
                from as int,
                i as int,
            ));
        }
        w = w + text[i].advance as i128;
        i = i + 1;
    }
    w
}

/// The width of `text` in pixels.
pub fn width(text: &Vec<Glyph>) -> (w: Scalar)
    ensures
        w == saturated(width_of(text@)),
{
    proof {
        assert(text@.subrange(0, text.len() as int) =~= text@);
    }
    saturate(extent(text, 0, text.len()))
}

} // verus!
