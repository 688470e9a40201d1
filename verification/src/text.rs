//! The two operations on text that the standard library supplies and the
//! verifier has no account of: lowercasing and comparison.

use vstd::prelude::*;

verus! {

/// The lowercase form of a text, as the standard library computes it: Unicode
/// lowercasing, the same on every machine and independent of any locale.
pub uninterp spec fn lowercase(text: Seq<char>) -> Seq<char>;

/// Lowercases a text with `str::to_lowercase`.
///
/// Trusted: the result is taken to be `lowercase` of the argument, which only
/// gives a name to what the standard library returns.
#[verifier::external_body]
pub(crate) fn to_lowercase(text: &str) -> (lowered: String)
    ensures
        lowered@ == lowercase(text@),
{
    text.to_lowercase()
}

/// Compares two texts with `str`'s `==`.
///
/// Trusted: two string slices are equal exactly when they hold the same
/// characters in the same order.
#[verifier::external_body]
pub(crate) fn same_text(left: &str, right: &str) -> (same: bool)
    ensures
        same == (left@ == right@),
{
    left == right
}

} // verus!
