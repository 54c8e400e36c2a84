//! Lowercasing of text, as the standard library does it.

use vstd::prelude::*;
use vstd::utf8::is_ascii_chars;
use crate::text::ascii_lowered;

verus! {

/// The text that `str::to_lowercase` returns for the text `s`: its
/// lowercase equivalent by the Unicode rules.
pub uninterp spec fn lowercase_of(s: Seq<char>) -> Seq<char>;

/// Calls `str::to_lowercase`.
///
/// Nothing is proved of the result. It is taken to depend on the text
/// alone, and on a text of ASCII characters to replace the capital letters
/// `A` to `Z` by their small letters and to leave every other character as
/// it is: these are the lowercase mappings that Unicode gives the ASCII
/// characters.
#[verifier::external_body]
pub(crate) fn to_lowercase(s: &str) -> (lowered: String)
    ensures
        lowered@ == lowercase_of(s@),
        is_ascii_chars(s@) ==> lowered@ == ascii_lowered(s@),
{
    s.to_lowercase()
}

} // verus!
