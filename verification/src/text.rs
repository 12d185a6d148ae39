//! Small string operations that the rest of the crate states its contracts over.

use vstd::prelude::*;

verus! {

/// The text that follows `prefix` in `s`, when `s` starts with `prefix`.
pub open spec fn spec_strip_prefix(s: Seq<char>, prefix: Seq<char>) -> Option<Seq<char>> {
    if prefix.len() <= s.len() && s.subrange(0, prefix.len() as int) == prefix {
        Some(s.subrange(prefix.len() as int, s.len() as int))
    } else {
        None
    }
}

/// The view of an optional string.
pub open spec fn opt_view(s: Option<String>) -> Option<Seq<char>> {
    match s {
        Some(s) => Some(s@),
        None => None,
    }
}

/// Whether two string slices hold the same characters.
pub(crate) fn str_eq(a: &str, b: &str) -> (same: bool)
    ensures
        same == (a@ == b@),
{
    a.to_owned() == b.to_owned()
}

/// `str::strip_prefix` of the standard library with a string pattern: the
/// rest of `s` behind `prefix` if `s` starts with it, `None` otherwise.
#[verifier::external_body]
pub(crate) fn strip_prefix<'a>(s: &'a str, prefix: &str) -> (rest: Option<&'a str>)
    ensures
        match rest {
            Some(r) => spec_strip_prefix(s@, prefix@) == Some(r@),
            None => spec_strip_prefix(s@, prefix@) is None,
        },
{
    s.strip_prefix(prefix)
}

} // verus!
