//! Bytes and text.
//!
//! Texts are sequences of characters; the places inside a text that the
//! standard library counts in are bytes of its UTF-8 encoding. The functions
//! here say what the standard library's text operations do, in both terms.

use vstd::prelude::*;
use vstd::utf8::{decode_utf8, encode_utf8, is_char_boundary, valid_utf8};

verus! {

/// The text that a run of bytes is the UTF-8 encoding of, if it is one.
pub open spec fn utf8_text(bytes: Seq<u8>) -> Option<Seq<char>> {
    if valid_utf8(bytes) {
        Some(decode_utf8(bytes))
    } else {
        None
    }
}

/// Whether the byte position `at` lies inside the text, on the first byte of
/// a character or at the end.
pub open spec fn on_boundary(text: Seq<char>, at: int) -> bool {
    0 <= at <= encode_utf8(text).len() && is_char_boundary(encode_utf8(text), at)
}

/// The text in which the bytes from `start` up to `end` are replaced by
/// `piece`.
pub open spec fn spliced(text: Seq<char>, start: int, end: int, piece: Seq<char>) -> Seq<char> {
    decode_utf8(
        encode_utf8(text).subrange(0, start) + encode_utf8(piece) + encode_utf8(text).subrange(
            end,
            encode_utf8(text).len() as int,
        ),
    )
}

/// Trusted: `std::str::from_utf8`, with its error dropped. It accepts exactly
/// the byte strings that are well-formed UTF-8 and hands them back as text.
#[verifier::external_body]
pub(crate) fn as_utf8(bytes: &[u8]) -> (r: Option<&str>)
    ensures
        r is Some <==> valid_utf8(bytes@),
        r matches Some(s) ==> s@ == decode_utf8(bytes@),
{
    std::str::from_utf8(bytes).ok()
}

/// Trusted: `String::push` appends one character.
#[verifier::external_body]
pub(crate) fn push_char(s: &mut String, c: char)
    ensures
        final(s)@ == old(s)@.push(c),
{
    s.push(c)
}

/// Trusted: `String::replace_range` replaces the bytes from `start` up to
/// `end` by `piece`. It panics where a bound is outside the text or inside a
/// character, which the precondition rules out.
#[verifier::external_body]
pub(crate) fn replace_range(s: &mut String, start: usize, end: usize, piece: &str)
    requires
        start <= end,
        on_boundary(old(s)@, start as int),
        on_boundary(old(s)@, end as int),
    ensures
        final(s)@ == spliced(old(s)@, start as int, end as int, piece@),
{
    s.replace_range(start..end, piece)
}

} // verus!
