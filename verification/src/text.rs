//! Text conversions that the standard library performs.
//!
//! Both functions here are trusted: their bodies are calls into the standard
//! library, and their contracts are taken from its documentation, not proved.

use vstd::prelude::*;
use vstd::utf8::{decode_utf8, valid_utf8};

verus! {

/// The text that permissive UTF-8 decoding makes of a run of bytes: the
/// decoded characters, with each malformed sequence replaced by U+FFFD.
pub uninterp spec fn lossy_text(bytes: Seq<u8>) -> Seq<char>;

/// `String::from_utf8_lossy`, with its result made an owned string.
///
/// Trusted: the result is [`lossy_text`] of the bytes, and, as the standard
/// library documents, well-formed UTF-8 comes back as the very text it
/// encodes.
#[verifier::external_body]
pub(crate) fn from_utf8_lossy(bytes: &[u8]) -> (text: String)
    ensures
        text@ == lossy_text(bytes@),
        valid_utf8(bytes@) ==> text@ == decode_utf8(bytes@),
{
    String::from_utf8_lossy(bytes).into_owned()
}

/// `String::from` on a `char`.
///
/// Trusted: the standard library documents the conversion as allocating a
/// string that holds exactly the given character.
#[verifier::external_body]
pub(crate) fn string_from_char(c: char) -> (s: String)
    ensures
        s@ == seq![c],
{
    String::from(c)
}

} // verus!
