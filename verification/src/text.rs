//! Trusted calls into `str` that vstd gives no specification.
use vstd::prelude::*;

verus! {

/// Calls `<str as PartialEq>::eq`. Claimed: two string slices are equal
/// exactly when they hold the same characters.
#[verifier::external_body]
pub(crate) fn str_eq(a: &str, b: &str) -> (eq: bool)
    ensures
        eq == (a@ == b@),
{
    a == b
}

/// `needle` occurs as a contiguous run of characters in `haystack`.
pub open spec fn contains_chars(haystack: Seq<char>, needle: Seq<char>) -> bool {
    exists|i: int|
        0 <= i && i + needle.len() <= haystack.len() && #[trigger] haystack.subrange(
            i,
            i + needle.len(),
        ) == needle
}

/// Calls `str::contains` with a `&str` pattern. Claimed: the result says
/// whether `needle` occurs as a substring of `haystack`.
#[verifier::external_body]
pub(crate) fn str_contains(haystack: &str, needle: &str) -> (found: bool)
    ensures
        found == contains_chars(haystack@, needle@),
{
    haystack.contains(needle)
}

} // verus!
