//! Byte ranges of UTF-8 text whose ends fall between characters, and what
//! replacing such a range does to the text.

use vstd::prelude::*;
use vstd::utf8::*;

verus! {

/// `text` with the bytes from `start` up to `end` replaced by `new`.
pub open spec fn splice(text: Seq<u8>, start: int, end: int, new: Seq<u8>) -> Seq<u8> {
    text.subrange(0, start) + new + text.subrange(end, text.len() as int)
}

/// Whether `start..end` is a range of `text` whose two ends fall between
/// characters, `text` being valid UTF-8.
pub open spec fn is_edit_range(text: Seq<u8>, start: int, end: int) -> bool {
    &&& 0 <= start <= end <= text.len()
    &&& is_char_boundary(text, start)
    &&& is_char_boundary(text, end)
}

/// In valid UTF-8, an offset within the text falls between two characters
/// exactly if it is the end of the text or the byte there does not continue
/// a character.
pub proof fn lemma_boundary_by_byte(text: Seq<u8>, index: int)
    requires
        valid_utf8(text),
        0 <= index <= text.len(),
    ensures
        is_char_boundary(text, index) <==> (index == text.len() || !is_continuation_byte(
            text[index],
        )),
{
    if index == text.len() {
        is_char_boundary_start_end_of_seq(text);
    } else {
        is_char_boundary_iff_not_is_continuation_byte(text, index);
    }
}

/// Replacing a range between characters by valid UTF-8 leaves valid UTF-8,
/// changes the length by the length of the new text less that of the range,
/// and leaves both ends of the new text between characters.
pub proof fn lemma_splice(text: Seq<u8>, start: int, end: int, new: Seq<u8>)
    requires
        valid_utf8(text),
        valid_utf8(new),
        is_edit_range(text, start, end),
    ensures
        valid_utf8(splice(text, start, end, new)),
        splice(text, start, end, new).len() == text.len() - (end - start) + new.len(),
        is_char_boundary(splice(text, start, end, new), start),
        is_char_boundary(splice(text, start, end, new), start + new.len()),
{
    let head = text.subrange(0, start);
    let tail = text.subrange(end, text.len() as int);
    let result = splice(text, start, end, new);
    valid_utf8_split(text, start);
    valid_utf8_split(text, end);
    valid_utf8_concat(head, new);
    valid_utf8_concat(head + new, tail);
    lemma_boundary_by_byte(text, end);
    lemma_boundary_by_byte(new, 0);
    assert(is_char_boundary(new, 0));
    lemma_boundary_by_byte(result, start);
    lemma_boundary_by_byte(result, start + new.len());
    if end < text.len() {
        assert(result[start + new.len()] == text[end]);
    }
    if new.len() > 0 {
        assert(result[start] == new[0]);
    }
}

} // verus!
