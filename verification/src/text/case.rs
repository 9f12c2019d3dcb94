//! Letter case: Unicode case conversion and ASCII case-insensitive
//! comparison.

use vstd::prelude::*;

verus! {

/// The uppercase form of a text, as `str::to_uppercase` computes it.
pub uninterp spec fn uppercase_spec(s: Seq<char>) -> Seq<char>;

/// The lowercase form of a text, as `str::to_lowercase` computes it.
pub uninterp spec fn lowercase_spec(s: Seq<char>) -> Seq<char>;

/// `str::to_uppercase`: the uppercase equivalent of the string, by the
/// Unicode case mapping. The result depends on the characters alone.
#[verifier::external_body]
pub(crate) fn to_uppercase(s: &str) -> (upper: String)
    ensures
        upper@ == uppercase_spec(s@),
{
    s.to_uppercase()
}

/// `str::to_lowercase`: the lowercase equivalent of the string, by the
/// Unicode case mapping. The result depends on the characters alone.
#[verifier::external_body]
pub(crate) fn to_lowercase(s: &str) -> (lower: String)
    ensures
        lower@ == lowercase_spec(s@),
{
    s.to_lowercase()
}

/// `c` with an ASCII uppercase letter replaced by its lowercase letter.
pub open spec fn ascii_lower_spec(c: char) -> char {
    if 0x41 <= c as u32 <= 0x5A {
        ((c as u32 + 0x20) as u8) as char
    } else {
        c
    }
}

/// `a` and `b` are equal up to the case of their ASCII letters.
pub open spec fn eq_ignore_ascii_case_spec(a: Seq<char>, b: Seq<char>) -> bool {
    a.len() == b.len() && forall|i: int|
        0 <= i < a.len() ==> ascii_lower_spec(#[trigger] a[i]) == ascii_lower_spec(b[i])
}

pub fn ascii_lower(c: char) -> (lower: char)
    ensures
        lower == ascii_lower_spec(c),
{
    let code: u32 = c as u32;
    if 0x41 <= code && code <= 0x5A {
        ((code + 0x20) as u8) as char
    } else {
        c
    }
}

/// Whether `a` and `b` are equal up to the case of their ASCII letters.
pub fn eq_ignore_ascii_case(a: &Vec<char>, b: &Vec<char>) -> (same: bool)
    ensures
        same == eq_ignore_ascii_case_spec(a@, b@),
{
    if a.len() != b.len() {
        return false;
    }
    let mut i: usize = 0;
    while i < a.len()
        invariant
            i <= a.len(),
            a.len() == b.len(),
            forall|k: int| 0 <= k < i ==> ascii_lower_spec(#[trigger] a@[k]) == ascii_lower_spec(b@[k]),
        decreases a.len() - i,
    {
        if ascii_lower(a[i]) != ascii_lower(b[i]) {
            return false;
        }
        i += 1;
    }
    true
}

} // verus!
