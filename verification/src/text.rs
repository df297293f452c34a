//! Text in its quoted, escaped form.

use vstd::prelude::*;

verus! {

/// The quoted form of a text: the text between double quotes, with every
/// character that cannot stand there as it is written as an escape.
pub uninterp spec fn debug_quoted(text: Seq<char>) -> Seq<char>;

/// Writes `text` as `<str as core::fmt::Debug>::fmt` does, by way of
/// `format!` with `{:?}`.
///
/// This function is not verified. Its contract only gives the outcome a
/// name: what the standard library writes depends on the characters of
/// `text` and on nothing else, so equal texts have equal quoted forms. Which
/// characters are escaped, and how, is left to the standard library.
#[verifier::external_body]
pub(crate) fn quote(text: &str) -> (out: String)
    ensures
        out@ == debug_quoted(text@),
{
    format!("{:?}", text)
}

} // verus!
