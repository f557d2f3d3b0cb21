//! The one place where the library leans on std's UTF-8 decoding.
//!
//! Option values that the format declares to be UTF-8 strings (interface
//! names, hardware descriptions, and the like) are decoded with replacement
//! characters for invalid sequences.  What that decoding yields is a function
//! of the bytes alone; the contracts name it `lossy_utf8` rather than spell
//! out the UTF-8 tables.

use vstd::prelude::*;

verus! {

/// The character sequence that lossy UTF-8 decoding yields for `bytes`.
pub uninterp spec fn lossy_utf8(bytes: Seq<u8>) -> Seq<char>;

/// Relies on String::from_utf8_lossy: decodes UTF-8 with U+FFFD for invalid
/// sequences; the result depends on the bytes alone.
#[verifier::external_body]
pub(crate) fn lossy_string(bytes: &[u8]) -> (r: String)
    ensures
        r@ == lossy_utf8(bytes@),
{
    String::from_utf8_lossy(bytes).into_owned()
}

} // verus!
