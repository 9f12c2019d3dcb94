//! Substring search.

use crate::text::chars::{chars_of, copy_range, optional_view};
use vstd::prelude::*;

verus! {

/// `needle` occurs in `hay` at index `i`.
pub open spec fn matches_at(hay: Seq<char>, needle: Seq<char>, i: int) -> bool {
    0 <= i && i + needle.len() <= hay.len() && hay.subrange(i, i + needle.len()) == needle
}

/// `needle` occurs somewhere in `hay`.
pub open spec fn contains_spec(hay: Seq<char>, needle: Seq<char>) -> bool {
    exists|i: int| matches_at(hay, needle, i)
}

/// `i` is the index of the first occurrence of `needle` in `hay`.
pub open spec fn is_first_match(hay: Seq<char>, needle: Seq<char>, i: int) -> bool {
    matches_at(hay, needle, i) && forall|j: int| 0 <= j < i ==> !matches_at(hay, needle, j)
}

/// The index of the first occurrence of `needle` in `hay`, if it occurs.
pub open spec fn first_match_spec(hay: Seq<char>, needle: Seq<char>) -> Option<int> {
    if contains_spec(hay, needle) {
        Some(choose|i: int| is_first_match(hay, needle, i))
    } else {
        None
    }
}

/// There is one first occurrence at most, and `first_match_spec` gives it.
pub proof fn lemma_first_match(hay: Seq<char>, needle: Seq<char>, i: int)
    requires
        is_first_match(hay, needle, i),
    ensures
        first_match_spec(hay, needle) == Some(i),
{
    let j = choose|j: int| is_first_match(hay, needle, j);
    if j < i {
        assert(!matches_at(hay, needle, j));
    }
    if i < j {
        assert(!matches_at(hay, needle, i));
    }
}

/// The piece of `hay` between the first occurrence of `needle` and the
/// next one after it, or the end where there is no next one; nothing
/// where `needle` does not occur.
pub open spec fn piece_after_first_spec(hay: Seq<char>, needle: Seq<char>) -> Option<Seq<char>> {
    match first_match_spec(hay, needle) {
        Some(i) => {
            let rest = hay.skip(i + needle.len());
            match first_match_spec(rest, needle) {
                Some(k) => Some(rest.take(k)),
                None => Some(rest),
            }
        },
        None => None,
    }
}

/// Whether `needle` occurs in `hay` at index `i`.
pub fn occurs_at(hay: &Vec<char>, needle: &Vec<char>, i: usize) -> (found: bool)
    ensures
        found == matches_at(hay@, needle@, i as int),
{
    if needle.len() > hay.len() || i > hay.len() - needle.len() {
        return false;
    }
    let mut k: usize = 0;
    while k < needle.len()
        invariant
            k <= needle.len(),
            i + needle.len() <= hay.len(),
            forall|t: int| 0 <= t < k ==> hay@[i + t] == needle@[t],
        decreases needle.len() - k,
    {
        if hay[i + k] != needle[k] {
            proof {
                let part = hay@.subrange(i as int, i + needle.len());
                assert(part[k as int] == hay@[i + k]);
            }
            return false;
        }
        k += 1;
    }
    assert(hay@.subrange(i as int, i + needle.len()) =~= needle@);
    true
}

/// The index of the first occurrence of `needle` in `hay`, if there is one.
pub fn find(hay: &Vec<char>, needle: &Vec<char>) -> (found: Option<usize>)
    ensures
        match found {
            Some(i) => is_first_match(hay@, needle@, i as int) && first_match_spec(hay@, needle@)
                == Some(i as int),
            None => !contains_spec(hay@, needle@) && first_match_spec(hay@, needle@) is None,
        },
{
    if needle.len() > hay.len() {
        return None;
    }
    let last: usize = hay.len() - needle.len();
    let mut i: usize = 0;
    loop
        invariant
            i <= last,
            last == hay.len() - needle.len(),
            forall|j: int| 0 <= j < i ==> !matches_at(hay@, needle@, j),
        decreases last - i,
    {
        if occurs_at(hay, needle, i) {
            proof {
                lemma_first_match(hay@, needle@, i as int);
            }
            return Some(i);
        }
        if i == last {
            return None;
        }
        i += 1;
    }
}

/// Whether `needle` occurs in `hay`.
pub fn contains(hay: &Vec<char>, needle: &Vec<char>) -> (found: bool)
    ensures
        found == contains_spec(hay@, needle@),
{
    find(hay, needle).is_some()
}

/// The piece of `hay` between the first occurrence of `needle` and the
/// next one after it.
pub fn piece_after_first(hay: &Vec<char>, needle: &Vec<char>) -> (piece: Option<Vec<char>>)
    ensures
        optional_view(piece) == piece_after_first_spec(hay@, needle@),
{
    match find(hay, needle) {
        Some(i) => {
            let total: usize = hay.len();
            assert(matches_at(hay@, needle@, i as int));
            let rest = copy_range(hay, i + needle.len(), total);
            assert(rest@ == hay@.skip(i + needle.len()));
            match find(&rest, needle) {
                Some(k) => {
                    let piece = copy_range(&rest, 0, k);
                    assert(piece@ == rest@.take(k as int));
                    Some(piece)
                },
                None => Some(rest),
            }
        },
        None => None,
    }
}

/// `s` starts with `prefix`.
pub open spec fn starts_with_spec(s: Seq<char>, prefix: Seq<char>) -> bool {
    matches_at(s, prefix, 0)
}

/// `s` without every repetition of `prefix` that it starts with.
pub open spec fn trim_start_matches_spec(s: Seq<char>, prefix: Seq<char>) -> Seq<char>
    decreases s.len(),
{
    if prefix.len() > 0 && starts_with_spec(s, prefix) {
        trim_start_matches_spec(s.skip(prefix.len() as int), prefix)
    } else {
        s
    }
}

/// Whether `v` starts with `prefix`.
pub fn starts_with(v: &Vec<char>, prefix: &Vec<char>) -> (found: bool)
    ensures
        found == starts_with_spec(v@, prefix@),
{
    occurs_at(v, prefix, 0)
}

/// `v` without every repetition of `prefix` that it starts with.
pub fn trim_start_matches(v: &Vec<char>, prefix: &Vec<char>) -> (rest: Vec<char>)
    ensures
        rest@ == trim_start_matches_spec(v@, prefix@),
{
    let total: usize = v.len();
    let mut start: usize = 0;
    assert(v@.subrange(0, total as int) == v@);
    if prefix.len() == 0 {
        return copy_range(v, 0, total);
    }
    loop
        invariant
            start <= total,
            total == v.len(),
            prefix.len() > 0,
            trim_start_matches_spec(v@, prefix@) == trim_start_matches_spec(
                v@.subrange(start as int, total as int),
                prefix@,
            ),
        decreases total - start,
    {
        let ghost rest = v@.subrange(start as int, total as int);
        let found = occurs_at(v, prefix, start);
        proof {
            if start + prefix.len() <= total {
                assert(rest.subrange(0, prefix.len() as int) == v@.subrange(
                    start as int,
                    start + prefix.len(),
                ));
            }
            assert(found == starts_with_spec(rest, prefix@));
        }
        if !found {
            return copy_range(v, start, total);
        }
        proof {
            assert(rest.skip(prefix.len() as int) == v@.subrange(
                start + prefix.len(),
                total as int,
            ));
        }
        start = start + prefix.len();
    }
}

/// Whether the text `needle` occurs in `hay`.
pub fn contains_text(hay: &Vec<char>, needle: &str) -> (found: bool)
    ensures
        found == contains_spec(hay@, needle@),
{
    let pattern = chars_of(needle);
    contains(hay, &pattern)
}

} // verus!
