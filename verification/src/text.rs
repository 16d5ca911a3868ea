//! Substring matching on text.

use vstd::prelude::*;

verus! {

/// Whether `needle` occurs in `hay` as a contiguous run of characters.
/// The empty text occurs in every text.
pub open spec fn occurs_in(hay: Seq<char>, needle: Seq<char>) -> bool {
    exists|i: int|
        0 <= i && i + needle.len() <= hay.len() && #[trigger] hay.subrange(i, i + needle.len())
            == needle
}

/// Calls `str::contains` of the standard library with a string pattern.
/// It is taken on trust that the call answers `true` exactly when the
/// pattern occurs in the text as a contiguous substring, compared exactly,
/// with no normalisation and no folding of case.
#[verifier::external_body]
pub(crate) fn contains_text(hay: &str, needle: &str) -> (found: bool)
    ensures
        found == occurs_in(hay@, needle@),
{
    hay.contains(needle)
}

} // verus!
