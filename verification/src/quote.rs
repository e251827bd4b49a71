//! Text in the quoted form in which the standard library prints a string
//! for debugging.

use vstd::prelude::*;

verus! {

/// The text that formatting `text` with `{:?}` gives: `text` between double
/// quotes, with the characters escaped that the standard library escapes.
pub uninterp spec fn debug_form(text: Seq<char>) -> Seq<char>;

/// Formats a string slice with `{:?}`, which calls `<str as Debug>::fmt`.
/// Trusted: the result depends on the text alone.
#[verifier::external_body]
pub(crate) fn debug_quoted(text: &str) -> (quoted: String)
    ensures
        quoted@ == debug_form(text@),
{
    format!("{:?}", text)
}

} // verus!
