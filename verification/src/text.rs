//! Small string operations with exact contracts over `Seq<char>`.

use vstd::prelude::*;

verus! {

/// `needle` occurs in `hay` as a contiguous run of characters.
pub open spec fn occurs_in(hay: Seq<char>, needle: Seq<char>) -> bool {
    exists|i: int|
        0 <= i && i + needle.len() <= hay.len() && #[trigger] hay.subrange(
            i,
            i + needle.len(),
        ) == needle
}

/// Wraps `str::contains` with a string pattern. std documents that it
/// returns true exactly when the pattern matches a sub-slice of the string;
/// for two valid strings that is an occurrence as a run of characters.
#[verifier::external_body]
pub(crate) fn str_contains(hay: &str, needle: &str) -> (r: bool)
    ensures
        r == occurs_in(hay@, needle@),
{
    hay.contains(needle)
}

/// The first `n` characters of `s`, or all of `s` when it has fewer.
pub open spec fn leading(s: Seq<char>, n: nat) -> Seq<char> {
    if s.len() <= n {
        s
    } else {
        s.subrange(0, n as int)
    }
}

/// The first `n` characters of `s`, or all of `s` when it has fewer.
pub fn take_leading(s: &str, n: usize) -> (r: String)
    ensures
        r@ == leading(s@, n as nat),
{
    let len = s.unicode_len();
    if len <= n {
        String::from_str(s)
    } else {
        String::from_str(s.substring_char(0, n))
    }
}

} // verus!
