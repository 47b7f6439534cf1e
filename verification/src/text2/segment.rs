//! Where the grapheme clusters and the words of a text begin and end.
//!
//! Offsets count bytes of the UTF-8 form of the text. The boundaries between
//! grapheme clusters come from the `unicode-segmentation` crate; every one of
//! them is tested before it is handed on, so no offset that leaves this
//! module lies inside a character.

use vstd::prelude::*;
use vstd::utf8::*;

verus! {

broadcast use {vstd::utf8::group_utf8_lib, vstd::string::group_string_axioms};

/// What `GraphemeCursor::next_boundary` finds for a cursor placed at byte
/// `from` of `text`, the whole text being supplied: the boundary between
/// extended grapheme clusters that follows `from`, if any.
pub uninterp spec fn grapheme_after(text: Seq<char>, from: usize) -> Option<usize>;

/// What `GraphemeCursor::prev_boundary` finds for a cursor placed at byte
/// `from` of `text`, the whole text being supplied: the boundary between
/// extended grapheme clusters that precedes `from`, if any.
pub uninterp spec fn grapheme_before(text: Seq<char>, from: usize) -> Option<usize>;

/// What `char::is_alphanumeric` says of a character.
pub uninterp spec fn alphanumeric(c: char) -> bool;

/// Whether `at` is an offset into `text`, its end included, that falls
/// between two characters.
pub open spec fn is_position(text: Seq<char>, at: int) -> bool {
    0 <= at <= encode_utf8(text).len() && is_char_boundary(encode_utf8(text), at)
}

/// The end of the grapheme cluster that starts at `from`: the boundary that
/// the segmentation reports, provided that it is a position after `from`.
pub open spec fn next_grapheme(text: Seq<char>, from: usize) -> Option<usize> {
    match grapheme_after(text, from) {
        Some(next) => if from < next && is_position(text, next as int) {
            Some(next)
        } else {
            None
        },
        None => None,
    }
}

/// The start of the grapheme cluster that ends at `from`: the boundary that
/// the segmentation reports, provided that it is a position before `from`.
pub open spec fn prev_grapheme(text: Seq<char>, from: usize) -> Option<usize> {
    match grapheme_before(text, from) {
        Some(prev) => if prev < from && is_position(text, prev as int) {
            Some(prev)
        } else {
            None
        },
        None => None,
    }
}

/// The character whose UTF-8 form starts at byte `at` of `text`.
pub open spec fn char_at(text: Seq<char>, at: int) -> char {
    decode_utf8(encode_utf8(text).subrange(at, encode_utf8(text).len() as int))[0]
}

/// `GraphemeCursor::next_boundary` of `unicode-segmentation`, for extended
/// grapheme clusters, on a cursor made by `GraphemeCursor::new` at `from`
/// and handed the whole text as one chunk that starts at 0. The cursor
/// slices the text at `from`, which panics inside a character or past the
/// end: the precondition rules both out. With the whole text at hand the
/// cursor never asks for more; were it to, no boundary is reported.
#[verifier::external_body]
fn cursor_next_boundary(text: &str, from: usize) -> (next: Option<usize>)
    requires
        is_position(text@, from as int),
    ensures
        next == grapheme_after(text@, from),
{
    let mut cursor = unicode_segmentation::GraphemeCursor::new(from, text.len(), true);
    match cursor.next_boundary(text, 0) {
        Ok(next) => next,
        Err(_) => None,
    }
}

/// `GraphemeCursor::prev_boundary` of `unicode-segmentation`, for extended
/// grapheme clusters, on a cursor made by `GraphemeCursor::new` at `from`
/// and handed the whole text as one chunk that starts at 0. The cursor
/// slices the text at `from`, which panics inside a character or past the
/// end: the precondition rules both out. With the whole text at hand the
/// cursor never asks for more; were it to, no boundary is reported.
#[verifier::external_body]
fn cursor_prev_boundary(text: &str, from: usize) -> (prev: Option<usize>)
    requires
        is_position(text@, from as int),
    ensures
        prev == grapheme_before(text@, from),
{
    let mut cursor = unicode_segmentation::GraphemeCursor::new(from, text.len(), true);
    match cursor.prev_boundary(text, 0) {
        Ok(prev) => prev,
        Err(_) => None,
    }
}

/// `char::is_alphanumeric` of the standard library.
#[verifier::external_body]
fn is_alphanumeric(c: char) -> (yes: bool)
    ensures
        yes == alphanumeric(c),
{
    c.is_alphanumeric()
}

/// Whether `at` is an offset into `text`, its end included, that falls
/// between two characters.
pub fn is_valid_position(text: &str, at: usize) -> (valid: bool)
    ensures
        valid == is_position(text@, at as int),
{
    text.is_char_boundary(at)
}

/// The end of the grapheme cluster that starts at `from`. There is none
/// where `from` is no position in the text, or is its end.
pub fn next_grapheme_offset(text: &str, from: usize) -> (next: Option<usize>)
    ensures
        next == if is_position(text@, from as int) {
            next_grapheme(text@, from)
        } else {
            None
        },
        next matches Some(offset) ==> from < offset && is_position(text@, offset as int),
{
    if !is_valid_position(text, from) {
        return None;
    }
    match cursor_next_boundary(text, from) {
        Some(next) => if from < next && is_valid_position(text, next) {
            Some(next)
        } else {
            None
        },
        None => None,
    }
}

/// The start of the grapheme cluster that ends at `from`. There is none
/// where `from` is no position in the text, or is its start.
pub fn prev_grapheme_offset(text: &str, from: usize) -> (prev: Option<usize>)
    ensures
        prev == if is_position(text@, from as int) {
            prev_grapheme(text@, from)
        } else {
            None
        },
        prev matches Some(offset) ==> offset < from && is_position(text@, offset as int),
{
    if !is_valid_position(text, from) {
        return None;
    }
    match cursor_prev_boundary(text, from) {
        Some(prev) => if prev < from && is_valid_position(text, prev) {
            Some(prev)
        } else {
            None
        },
        None => None,
    }
}

/// The character whose UTF-8 form starts at byte `at` of `text`.
fn character_at(text: &str, at: usize) -> (c: char)
    requires
        is_position(text@, at as int),
        at < encode_utf8(text@).len(),
    ensures
        c == char_at(text@, at as int),
{
    let (_, rest) = text.split_at(at);
    proof {
        let bytes = encode_utf8(text@);
        let tail = bytes.subrange(at as int, bytes.len() as int);
        assert(encode_utf8(rest@) == tail);
        assert(decode_utf8(encode_utf8(rest@)) == rest@);
        assert(rest@.len() > 0) by {
            if rest@.len() == 0 {
                assert(encode_utf8(rest@).len() == 0);
            }
        }
    }
    let mut chars = rest.chars();
    match chars.next() {
        Some(c) => c,
        // Never taken: the rest of the text is not empty.
        None => ' ',
    }
}

/// Scanning back from `from` over grapheme clusters, `passed` telling
/// whether one that starts with an alphanumeric character has been passed:
/// the end of the first cluster that does not start with one and comes
/// before one that does. There is none where the start of the text is
/// reached first.
pub open spec fn prev_word_scan(text: Seq<char>, from: usize, passed: bool) -> Option<usize>
    decreases from,
{
    match prev_grapheme(text, from) {
        Some(prev) => if alphanumeric(char_at(text, prev as int)) {
            prev_word_scan(text, prev, true)
        } else if passed {
            Some(from)
        } else {
            prev_word_scan(text, prev, false)
        },
        None => None,
    }
}

/// Scanning on from `from` over grapheme clusters, `passed` telling whether
/// one that starts with an alphanumeric character has been passed: the start
/// of the first cluster that does not start with one and comes after one
/// that does, or else the offset at which no further cluster is found, which
/// is the end of the text.
pub open spec fn next_word_scan(text: Seq<char>, from: usize, passed: bool) -> usize
    decreases encode_utf8(text).len() - from,
{
    match next_grapheme(text, from) {
        Some(next) => if alphanumeric(char_at(text, from as int)) {
            next_word_scan(text, next, true)
        } else if passed {
            from
        } else {
            next_word_scan(text, next, false)
        },
        None => from,
    }
}

/// The start of the word before `from`, if the text before `from` holds one
/// that something precedes.
pub open spec fn prev_word(text: Seq<char>, from: usize) -> Option<usize> {
    if is_position(text, from as int) {
        prev_word_scan(text, from, false)
    } else {
        None
    }
}

/// The end of the word after `from`, or the end of the text where no word
/// ends before it. There is none where `from` is no position in the text or
/// no grapheme cluster follows it.
pub open spec fn next_word(text: Seq<char>, from: usize) -> Option<usize> {
    if is_position(text, from as int) && next_grapheme(text, from) is Some {
        Some(next_word_scan(text, from, false))
    } else {
        None
    }
}

/// The start of the word before `from`: scanning back over grapheme
/// clusters, the end of the first one that does not start with an
/// alphanumeric character and comes before one that does.
pub fn prev_word_offset(text: &str, from: usize) -> (start: Option<usize>)
    ensures
        start == prev_word(text@, from),
        start matches Some(offset) ==> offset < from && is_position(text@, offset as int),
{
    if !is_valid_position(text, from) {
        return None;
    }
    let mut offset: usize = from;
    let mut passed: bool = false;
    loop
        invariant
            is_position(text@, from as int),
            is_position(text@, offset as int),
            offset <= from,
            passed ==> offset < from,
            prev_word_scan(text@, from, false) == prev_word_scan(text@, offset, passed),
        decreases offset,
    {
        match prev_grapheme_offset(text, offset) {
            Some(prev) => {
                if is_alphanumeric(character_at(text, prev)) {
                    passed = true;
                } else if passed {
                    return Some(offset);
                }
                offset = prev;
            },
            None => {
                return None;
            },
        }
    }
}

/// The end of the word after `from`: scanning on over grapheme clusters, the
/// start of the first one that does not start with an alphanumeric character
/// and comes after one that does, or the end of the text.
pub fn next_word_offset(text: &str, from: usize) -> (end: Option<usize>)
    ensures
        end == next_word(text@, from),
        end matches Some(offset) ==> from < offset && is_position(text@, offset as int),
{
    let mut offset: usize = match next_grapheme_offset(text, from) {
        Some(next) => next,
        None => {
            return None;
        },
    };
    let mut passed: bool = is_alphanumeric(character_at(text, from));
    loop
        invariant
            is_position(text@, from as int),
            next_grapheme(text@, from) is Some,
            is_position(text@, offset as int),
            from < offset,
            next_word_scan(text@, from, false) == next_word_scan(text@, offset, passed),
        decreases encode_utf8(text@).len() - offset,
    {
        match next_grapheme_offset(text, offset) {
            Some(next) => {
                if is_alphanumeric(character_at(text, offset)) {
                    passed = true;
                } else if passed {
                    return Some(offset);
                }
                offset = next;
            },
            None => {
                return Some(offset);
            },
        }
    }
}

/// The start of a text is a position in it, and so is its end.
pub proof fn lemma_ends_are_positions(text: Seq<char>)
    ensures
        is_position(text, 0),
        is_position(text, encode_utf8(text).len() as int),
{
    is_char_boundary_start_end_of_seq(encode_utf8(text));
}

/// No grapheme cluster and no word ends at the start of a text: there the
/// lookups find nothing.
pub proof fn lemma_nothing_before_start(text: Seq<char>)
    ensures
        prev_grapheme(text, 0) is None,
        prev_word(text, 0) is None,
{
}

/// No grapheme cluster and no word starts at the end of a text: there the
/// lookups find nothing.
pub proof fn lemma_nothing_after_end(text: Seq<char>, end: usize)
    requires
        end == encode_utf8(text).len(),
    ensures
        next_grapheme(text, end) is None,
        next_word(text, end) is None,
{
}

/// A grapheme cluster that is found begins and ends between characters:
/// the lookups hand out positions, before `from` for the one before it and
/// after `from` for the one behind it.
pub proof fn lemma_grapheme_is_position(text: Seq<char>, from: usize)
    ensures
        prev_grapheme(text, from) matches Some(prev) ==> prev < from && is_position(
            text,
            prev as int,
        ),
        next_grapheme(text, from) matches Some(next) ==> from < next && is_position(
            text,
            next as int,
        ),
{
}

/// Where a scan back from a position finds the start of a word, that start
/// is a position no later than where the scan began.
pub proof fn lemma_prev_word_scan_is_position(text: Seq<char>, from: usize, passed: bool)
    requires
        is_position(text, from as int),
    ensures
        prev_word_scan(text, from, passed) matches Some(start) ==> start <= from && is_position(
            text,
            start as int,
        ),
    decreases from,
{
    match prev_grapheme(text, from) {
        Some(prev) => {
            lemma_prev_word_scan_is_position(text, prev, true);
            lemma_prev_word_scan_is_position(text, prev, false);
        },
        None => {},
    }
}

/// A scan forward from a position ends at a position no earlier than where
/// the scan began.
pub proof fn lemma_next_word_scan_is_position(text: Seq<char>, from: usize, passed: bool)
    requires
        is_position(text, from as int),
    ensures
        from <= next_word_scan(text, from, passed),
        is_position(text, next_word_scan(text, from, passed) as int),
    decreases encode_utf8(text).len() - from,
{
    match next_grapheme(text, from) {
        Some(next) => {
            lemma_next_word_scan_is_position(text, next, true);
            lemma_next_word_scan_is_position(text, next, false);
        },
        None => {},
    }
}

/// The start of the word before an offset is a position before it, and the
/// end of the word behind an offset is a position after it.
pub proof fn lemma_word_is_position(text: Seq<char>, from: usize)
    ensures
        prev_word(text, from) matches Some(start) ==> start < from && is_position(
            text,
            start as int,
        ),
        next_word(text, from) matches Some(end) ==> from < end && is_position(text, end as int),
{
    if is_position(text, from as int) {
        match prev_grapheme(text, from) {
            Some(prev) => {
                lemma_prev_word_scan_is_position(text, prev, true);
                lemma_prev_word_scan_is_position(text, prev, false);
            },
            None => {},
        }
        match next_grapheme(text, from) {
            Some(next) => {
                lemma_next_word_scan_is_position(text, next, true);
                lemma_next_word_scan_is_position(text, next, false);
            },
            None => {},
        }
    }
}

} // verus!
