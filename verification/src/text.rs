//! Specifications of the few string operations that the rest of the crate
//! borrows from the standard library.

use vstd::prelude::*;

verus! {

/// `s` ends with `suffix`.
pub open spec fn ends_with(s: Seq<char>, suffix: Seq<char>) -> bool {
    suffix.len() <= s.len() && s.subrange(s.len() - suffix.len(), s.len() as int) == suffix
}

/// `needle` occurs somewhere in `s` as a contiguous run of characters.
pub open spec fn contains(s: Seq<char>, needle: Seq<char>) -> bool {
    exists|i: int|
        0 <= i && i + needle.len() <= s.len() && #[trigger] s.subrange(i, i + needle.len())
            == needle
}

/// `s` without its leading and trailing white space, as `str::trim` returns
/// it. White space is what Unicode gives the property `White_Space`; the
/// crate does not list those characters.
pub uninterp spec fn trimmed(s: Seq<char>) -> Seq<char>;

/// Wraps `str::trim`. Believed: the result is a function of the characters
/// of `s` alone, named `trimmed`.
#[verifier::external_body]
pub(crate) fn str_trim(s: &str) -> (t: &str)
    ensures
        t@ == trimmed(s@),
{
    s.trim()
}

/// Wraps `str::contains` for a string pattern: the answer is whether the
/// characters of `needle` stand somewhere in `s`, one after the other.
#[verifier::external_body]
pub(crate) fn str_contains(s: &str, needle: &str) -> (b: bool)
    ensures
        b == contains(s@, needle@),
{
    s.contains(needle)
}

/// Wraps `str::ends_with` for a string pattern: the answer is whether the
/// characters of `suffix` are the last characters of `s`.
#[verifier::external_body]
pub(crate) fn str_ends_with(s: &str, suffix: &str) -> (b: bool)
    ensures
        b == ends_with(s@, suffix@),
{
    s.ends_with(suffix)
}

} // verus!
