//! UTF-8 helpers shared by the text-handling code.

use vstd::prelude::*;
use vstd::utf8::{valid_utf8, encode_utf8, encode_scalar};
use vstd::string::StringSliceAdditionalSpecFns;

verus! {

/// `core::str::from_utf8`, seen as an `Option`: it returns the string whose
/// UTF-8 encoding is `bytes` when `bytes` is valid UTF-8, and `None`
/// otherwise (the standard library's documented behaviour).
#[verifier::external_body]
pub fn str_from_utf8(bytes: &[u8]) -> (r: Option<&str>)
    ensures
        match r {
            Some(s) => valid_utf8(bytes@) && s.spec_bytes() == bytes@,
            None => !valid_utf8(bytes@),
        },
{
    core::str::from_utf8(bytes).ok()
}

/// A UTF-8 encoding has between one and four bytes per character.
pub proof fn lemma_encode_len(chars: Seq<char>)
    ensures
        chars.len() <= encode_utf8(chars).len() <= 4 * chars.len(),
    decreases chars.len(),
{
    if chars.len() > 0 {
        lemma_encode_len(chars.drop_first());
        let e = encode_scalar(chars[0] as u32);
        assert(1 <= e.len() <= 4);
    }
}

/// An ASCII string has one byte per character.
pub proof fn lemma_ascii_len(s: &str)
    requires
        vstd::utf8::is_ascii_chars(s@),
    ensures
        s.spec_bytes().len() == s@.len(),
{
    vstd::utf8::is_ascii_chars_encode_utf8(s@);
}

} // verus!
