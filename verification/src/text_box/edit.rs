use vstd::prelude::*;
use crate::keyboard::Key;
use crate::label::{
    extent, lemma_width_bounds, lemma_width_concat, lemma_width_take_next, width_of, Glyph,
};
use crate::point::{saturate, saturated, Scalar};
use crate::text_box::locate::{left_edge, lemma_left_edge_monotonic, within};
use crate::text_box::{CursorX, Idx, TEXT_PADDING};

verus! {

/// The caret of a text box while its text is edited: the index at which it
/// stands and its horizontal position.
#[derive(Debug, Clone, Copy, PartialEq, Eq, Structural)]
pub struct Caret {
    pub idx: Idx,
    pub x: CursorX,
}

/// Whether `fragment`, put at a caret at `x`, ends left of the padding at the
/// right edge of an inner area that starts at `pad_x` and is `pad_w` wide.
pub open spec fn fits(x: CursorX, fragment: Seq<Glyph>, pad_x: Scalar, pad_w: Scalar) -> bool {
    x + width_of(fragment) < pad_x + pad_w - TEXT_PADDING
}

/// `text` with `fragment` put in before character `at`.
pub open spec fn spliced(text: Seq<Glyph>, at: int, fragment: Seq<Glyph>) -> Seq<Glyph> {
    text.take(at) + fragment + text.skip(at)
}

/// The text and the caret after `fragment` was put in at the caret: the caret
/// stands behind the fragment.
pub open spec fn after_insert(text: Seq<Glyph>, caret: Caret, fragment: Seq<Glyph>) -> (
    Seq<Glyph>,
    Caret,
) {
    let at = within(caret.idx, text);
    (
        spliced(text, at as int, fragment),
        Caret { idx: (at + fragment.len()) as Idx, x: saturated(caret.x + width_of(fragment)) },
    )
}

/// The text and the caret after as many of `fragments` were put in at the
/// caret, one behind the other, as fit: the first that does not fit is left
/// out, and so are all after it.
pub open spec fn after_typing(
    text: Seq<Glyph>,
    caret: Caret,
    fragments: Seq<Vec<Glyph>>,
    pad_x: Scalar,
    pad_w: Scalar,
) -> (Seq<Glyph>, Caret)
    decreases fragments.len(),
{
    if fragments.len() == 0 || !fits(caret.x, fragments[0]@, pad_x, pad_w) {
        (text, caret)
    } else {
        let (text, caret) = after_insert(text, caret, fragments[0]@);
        after_typing(text, caret, fragments.drop_first(), pad_x, pad_w)
    }
}

/// The text and the caret after the character before the caret was taken
/// out. At the start of the text nothing changes.
pub open spec fn after_backspace(text: Seq<Glyph>, caret: Caret) -> (Seq<Glyph>, Caret) {
    let at = within(caret.idx, text);
    if at > 0 {
        (
            text.remove(at - 1),
            Caret { idx: (at - 1) as Idx, x: saturated(caret.x - text[at - 1].advance) },
        )
    } else {
        (text, caret)
    }
}

/// The text and the caret after `n` characters before the caret were taken
/// out, one at a time.
pub open spec fn after_backspaces(text: Seq<Glyph>, caret: Caret, n: nat) -> (Seq<Glyph>, Caret)
    decreases n,
{
    if n == 0 {
        (text, caret)
    } else {
        let (text, caret) = after_backspace(text, caret);
        after_backspaces(text, caret, (n - 1) as nat)
    }
}

/// The caret after it went one character to the left. At the start of the
/// text it stays.
pub open spec fn after_left(text: Seq<Glyph>, caret: Caret) -> Caret {
    let at = within(caret.idx, text);
    if at > 0 {
        Caret { idx: (at - 1) as Idx, x: saturated(caret.x - text[at - 1].advance) }
    } else {
        caret
    }
}

/// The caret after it went one character to the right. At the end of the
/// text it stays.
pub open spec fn after_right(text: Seq<Glyph>, caret: Caret) -> Caret {
    if caret.idx < text.len() {
        Caret {
            idx: (caret.idx + 1) as Idx,
            x: saturated(caret.x + text[caret.idx as int].advance),
        }
    } else {
        caret
    }
}

/// The text and the caret after `key` was pressed. `Return` changes neither,
/// nor does a key that the text box does not answer to.
pub open spec fn after_key(text: Seq<Glyph>, caret: Caret, key: Key) -> (Seq<Glyph>, Caret) {
    match key {
        Key::Backspace => after_backspace(text, caret),
        Key::Left => (text, after_left(text, caret)),
        Key::Right => (text, after_right(text, caret)),
        Key::Return => (text, caret),
        Key::Other => (text, caret),
    }
}

/// Whether `key` asks for the text to be committed: `Return` does, on a text
/// that is not empty, where there is someone to commit it to.
pub open spec fn asks_commit(text: Seq<Glyph>, key: Key, has_callback: bool) -> bool {
    key == Key::Return && text.len() > 0 && has_callback
}

/// The text and the caret after the keys from `from` on were pressed, up to
/// the first that asks for a commit, and the index behind that key; `None` if
/// no key asks for it.
pub open spec fn after_keys(
    text: Seq<Glyph>,
    caret: Caret,
    keys: Seq<Key>,
    from: int,
    has_callback: bool,
) -> (Seq<Glyph>, Caret, Option<int>)
    decreases keys.len() - from,
{
    if from < 0 || from >= keys.len() {
        (text, caret, None)
    } else if asks_commit(text, keys[from], has_callback) {
        (text, caret, Some(from + 1))
    } else {
        let (text, caret) = after_key(text, caret, keys[from]);
        after_keys(text, caret, keys, from + 1, has_callback)
    }
}

/// The caret after the text was committed and came back as `text`: at its
/// index, or at the end of a text that is now shorter, and drawn at the end
/// of the text, which starts at `text_x`.
pub open spec fn after_commit(text: Seq<Glyph>, caret: Caret, text_x: Scalar) -> Caret {
    Caret { idx: within(caret.idx, text), x: saturated(text_x + width_of(text)) }
}

/// Taking out the last character of a fragment that was just put in gives
/// what putting in the fragment without that character would have given,
/// as long as the caret's position stayed in the scalar range.
proof fn lemma_backspace_after_insert(text: Seq<Glyph>, caret: Caret, fragment: Seq<Glyph>)
    requires
        fragment.len() > 0,
        text.len() + fragment.len() <= usize::MAX,
        caret.x + width_of(fragment) <= Scalar::MAX,
    ensures
        after_backspace(
            after_insert(text, caret, fragment).0,
            after_insert(text, caret, fragment).1,
        ) == after_insert(text, caret, fragment.drop_last()),
{
    let at = within(caret.idx, text) as int;
    let (t1, c1) = after_insert(text, caret, fragment);
    let rest = fragment.drop_last();
    lemma_width_bounds(rest);
    assert(t1.len() == text.len() + fragment.len());
    assert(within(c1.idx, t1) == at + fragment.len());
    assert(t1[at + fragment.len() - 1] == fragment.last());
    assert(t1.remove(at + fragment.len() - 1) =~= spliced(text, at, rest));
}

/// Putting in a fragment at the caret and then taking out one character
/// before the caret for each character of the fragment gives back the text,
/// and the caret where it was: at its index, or at the end of the text if its
/// index was behind it. This holds where the caret's position with the
/// fragment behind it is in the scalar range, and the text with the fragment
/// has a length that an index can hold.
pub proof fn lemma_insert_then_backspaces(text: Seq<Glyph>, caret: Caret, fragment: Seq<Glyph>)
    requires
        text.len() + fragment.len() <= usize::MAX,
        caret.x + width_of(fragment) <= Scalar::MAX,
    ensures
        after_backspaces(
            after_insert(text, caret, fragment).0,
            after_insert(text, caret, fragment).1,
            fragment.len(),
        ) == (text, Caret { idx: within(caret.idx, text), x: caret.x }),
    decreases fragment.len(),
{
    lemma_width_bounds(fragment);
    if fragment.len() == 0 {
        let at = within(caret.idx, text) as int;
        assert(spliced(text, at, fragment) =~= text);
    } else {
        lemma_backspace_after_insert(text, caret, fragment);
        lemma_width_bounds(fragment.drop_last());
        lemma_insert_then_backspaces(text, caret, fragment.drop_last());
    }
}

/// Whether the caret stands in the text and is drawn at the left edge of the
/// character at which it stands, in a text that starts at `text_x`.
pub open spec fn drawn_at_index(text_x: Scalar, text: Seq<Glyph>, caret: Caret) -> bool {
    caret.idx <= text.len() && caret.x == left_edge(text_x, text, caret.idx as int)
}

/// A caret that is drawn where it stands is still drawn where it stands after
/// a key was pressed, in a text whose right edge is in the scalar range and
/// whose length is one that an index can hold.
pub proof fn lemma_key_keeps_caret_at_its_index(
    text_x: Scalar,
    text: Seq<Glyph>,
    caret: Caret,
    key: Key,
)
    requires
        drawn_at_index(text_x, text, caret),
        text.len() <= usize::MAX,
        left_edge(text_x, text, text.len() as int) <= Scalar::MAX,
    ensures
        drawn_at_index(text_x, after_key(text, caret, key).0, after_key(text, caret, key).1),
{
    let at = caret.idx as int;
    match key {
        Key::Backspace | Key::Left => {
            if at > 0 {
                lemma_width_take_next(text, at - 1);
                lemma_left_edge_monotonic(text_x, text, at - 1, at);
                assert(text.remove(at - 1).take(at - 1) =~= text.take(at - 1));
            }
        },
        Key::Right => {
            if at < text.len() {
                lemma_width_take_next(text, at);
                lemma_left_edge_monotonic(text_x, text, at + 1, text.len() as int);
            }
        },
        Key::Return | Key::Other => {},
    }
}

/// A caret that is drawn where it stands is still drawn where it stands after
/// a fragment was put in, if the right edge of the text with the fragment is
/// in the scalar range and its length is one that an index can hold.
pub proof fn lemma_insert_keeps_caret_at_its_index(
    text_x: Scalar,
    text: Seq<Glyph>,
    caret: Caret,
    fragment: Seq<Glyph>,
)
    requires
        drawn_at_index(text_x, text, caret),
        text.len() + fragment.len() <= usize::MAX,
        left_edge(text_x, text, text.len() as int) + width_of(fragment) <= Scalar::MAX,
    ensures
        drawn_at_index(
            text_x,
            after_insert(text, caret, fragment).0,
            after_insert(text, caret, fragment).1,
        ),
{
    let at = caret.idx as int;
    let (new_text, new_caret) = after_insert(text, caret, fragment);
    assert(new_text.take(at + fragment.len()) =~= text.take(at) + fragment);
    lemma_width_concat(text.take(at), fragment);
    lemma_width_bounds(fragment);
    lemma_left_edge_monotonic(text_x, text, at, text.len() as int);
}

/// Puts `fragment` into `text` at the caret and moves the caret behind it, if
/// the fragment fits into the inner area of the text box, which starts at
/// `pad_x` and is `pad_w` wide; tells whether it did. A fragment that does
/// not fit changes nothing.
pub fn insert_text(
    text: &mut Vec<Glyph>,
    caret: &mut Caret,
    fragment: &Vec<Glyph>,
    pad_x: Scalar,
    pad_w: Scalar,
) -> (done: bool)
    ensures
        done == fits(old(caret).x, fragment@, pad_x, pad_w),
        done ==> (final(text)@, *final(caret)) == after_insert(
            old(text)@,
            *old(caret),
            fragment@,
        ),
        !done ==> final(text)@ == old(text)@ && *final(caret) == *old(caret),
        done ==> final(caret).idx <= final(text).len(),
{
    proof {
        assert(fragment@.subrange(0, fragment.len() as int) =~= fragment@);
    }
    let fragment_w: i128 = extent(fragment, 0, fragment.len());
    if caret.x as i128 + fragment_w < pad_x as i128 + pad_w as i128 - TEXT_PADDING as i128 {
        let at: Idx = if caret.idx > text.len() {
            text.len()
        } else {
            caret.idx
        };
        let mut tail: Vec<Glyph> = text.split_off(at);
        let mut i: usize = 0;
        while i < fragment.len()
            invariant
                i <= fragment.len(),
                text@ == old(text)@.take(at as int) + fragment@.take(i as int),
            decreases fragment.len() - i,
        {
            text.push(fragment[i]);
            proof {
                assert(fragment@.take(i + 1) =~= fragment@.take(i as int).push(
                    fragment@[i as int],
                ));
            }
            i = i + 1;
        }
        proof {
            assert(fragment@.take(fragment.len() as int) =~= fragment@);
        }
        caret.idx = text.len();
        text.append(&mut tail);
        caret.x = saturate(caret.x as i128 + fragment_w);
        true
    } else {
        false
    }
}

/// Puts the fragments that were typed during a frame into `text` at the
/// caret, one behind the other, up to the first that does not fit into the
/// inner area of the text box.
pub fn type_text(
    text: &mut Vec<Glyph>,
    caret: &mut Caret,
    fragments: &Vec<Vec<Glyph>>,
    pad_x: Scalar,
    pad_w: Scalar,
)
    ensures
        (final(text)@, *final(caret)) == after_typing(
            old(text)@,
            *old(caret),
            fragments@,
            pad_x,
            pad_w,
        ),
        old(caret).idx <= old(text).len() ==> final(caret).idx <= final(text).len(),
{
    let mut i: usize = 0;
    proof {
        assert(fragments@.skip(0) =~= fragments@);
    }
    while i < fragments.len()
        invariant
            i <= fragments.len(),
            after_typing(old(text)@, *old(caret), fragments@, pad_x, pad_w) == after_typing(
                text@,
                *caret,
                fragments@.skip(i as int),
                pad_x,
                pad_w,
            ),
            old(caret).idx <= old(text).len() ==> caret.idx <= text.len(),
        decreases fragments.len() - i,
    {
        proof {
            assert(fragments@.skip(i as int)[0] == fragments@[i as int]);
            assert(fragments@.skip(i as int).drop_first() =~= fragments@.skip(i + 1));
        }
        if !insert_text(text, caret, &fragments[i], pad_x, pad_w) {
            return ;
        }
        i = i + 1;
    }
}

/// Takes out the character before the caret and moves the caret onto its
/// place. At the start of the text nothing changes.
pub fn backspace(text: &mut Vec<Glyph>, caret: &mut Caret)
    ensures
        (final(text)@, *final(caret)) == after_backspace(old(text)@, *old(caret)),
        old(caret).idx <= old(text).len() ==> final(caret).idx <= final(text).len(),
{
    let at: Idx = if caret.idx > text.len() {
        text.len()
    } else {
        caret.idx
    };
    if at > 0 {
        let removed: Glyph = text.remove(at - 1);
        caret.idx = at - 1;
        caret.x = saturate(caret.x as i128 - removed.advance as i128);
    }
}

/// Moves the caret one character to the left. At the start of the text it
/// stays.
pub fn move_left(text: &Vec<Glyph>, caret: &mut Caret)
    ensures
        *final(caret) == after_left(text@, *old(caret)),
        old(caret).idx <= text.len() ==> final(caret).idx <= text.len(),
{
    let at: Idx = if caret.idx > text.len() {
        text.len()
    } else {
        caret.idx
    };
    if at > 0 {
        caret.idx = at - 1;
        caret.x = saturate(caret.x as i128 - text[at - 1].advance as i128);
    }
}

/// Moves the caret one character to the right. At the end of the text it
/// stays.
pub fn move_right(text: &Vec<Glyph>, caret: &mut Caret)
    ensures
        *final(caret) == after_right(text@, *old(caret)),
        old(caret).idx <= text.len() ==> final(caret).idx <= text.len(),
{
    if caret.idx < text.len() {
        caret.x = saturate(caret.x as i128 + text[caret.idx].advance as i128);
        caret.idx = caret.idx + 1;
    }
}

/// Answers to one key, and tells whether the key asks for the text to be
/// committed. A key that asks for it changes nothing by itself.
pub fn press_key(text: &mut Vec<Glyph>, caret: &mut Caret, key: Key, has_callback: bool) -> (commit:
    bool)
    ensures
        commit == asks_commit(old(text)@, key, has_callback),
        (final(text)@, *final(caret)) == after_key(old(text)@, *old(caret), key),
        old(caret).idx <= old(text).len() ==> final(caret).idx <= final(text).len(),
{
    match key {
        Key::Backspace => {
            backspace(text, caret);
            false
        },
        Key::Left => {
            move_left(text, caret);
            false
        },
        Key::Right => {
            move_right(text, caret);
            false
        },
        Key::Return => text.len() > 0 && has_callback,
        Key::Other => false,
    }
}

/// Answers to the keys that were pressed during a frame, from `keys[from]`
/// on and in their order, up to the first that asks for the text to be
/// committed. For such a key the index behind it is returned: the caller
/// commits the text, calls `recommit` and goes on from that index. `None`
/// says that all keys are done.
pub fn press_keys(
    text: &mut Vec<Glyph>,
    caret: &mut Caret,
    keys: &Vec<Key>,
    from: usize,
    has_callback: bool,
) -> (resume: Option<usize>)
    ensures
        (final(text)@, *final(caret)) == (
            after_keys(old(text)@, *old(caret), keys@, from as int, has_callback).0,
            after_keys(old(text)@, *old(caret), keys@, from as int, has_callback).1,
        ),
        match resume {
            Some(next) => after_keys(old(text)@, *old(caret), keys@, from as int, has_callback).2
                == Some(next as int),
            None => after_keys(old(text)@, *old(caret), keys@, from as int, has_callback).2 is None,
        },
        old(caret).idx <= old(text).len() ==> final(caret).idx <= final(text).len(),
{
    let mut i: usize = from;
    while i < keys.len()
        invariant
            after_keys(old(text)@, *old(caret), keys@, from as int, has_callback) == after_keys(
                text@,
                *caret,
                keys@,
                i as int,
                has_callback,
            ),
            old(caret).idx <= old(text).len() ==> caret.idx <= text.len(),
        decreases keys.len() - i,
    {
        if press_key(text, caret, keys[i], has_callback) {
            return Some(i + 1);
        }
        i = i + 1;
    }
    None
}

/// Brings the caret back into a text that was committed and came back as
/// `text`: to the end of the text if its index lies behind it, and drawn at
/// the end of the text, which starts at `text_x`.
pub fn recommit(text: &Vec<Glyph>, caret: &mut Caret, text_x: Scalar)
    ensures
        *final(caret) == after_commit(text@, *old(caret), text_x),
        final(caret).idx <= text.len(),
{
    if caret.idx > text.len() {
        caret.idx = text.len();
    }
    proof {
        assert(text@.subrange(0, text.len() as int) =~= text@);
    }
    caret.x = saturate(text_x as i128 + extent(text, 0, text.len()));
}

} // verus!
