//! Conversion between strings and character vectors, and trimming.

use vstd::prelude::*;

verus! {

/// The characters with the Unicode `White_Space` property.
pub open spec fn is_whitespace_spec(c: char) -> bool {
    let code = c as u32;
    ||| 0x09 <= code <= 0x0D
    ||| code == 0x20
    ||| code == 0x85
    ||| code == 0xA0
    ||| code == 0x1680
    ||| 0x2000 <= code <= 0x200A
    ||| code == 0x2028
    ||| code == 0x2029
    ||| code == 0x202F
    ||| code == 0x205F
    ||| code == 0x3000
}

#[verifier::when_used_as_spec(is_whitespace_spec)]
pub fn is_whitespace(c: char) -> (white: bool)
    ensures
        white == is_whitespace_spec(c),
{
    let code: u32 = c as u32;
    (0x09 <= code && code <= 0x0D) || code == 0x20 || code == 0x85 || code == 0xA0 || code
        == 0x1680 || (0x2000 <= code && code <= 0x200A) || code == 0x2028 || code == 0x2029 || code
        == 0x202F || code == 0x205F || code == 0x3000
}

/// `s` without its leading whitespace.
pub open spec fn trim_start_spec(s: Seq<char>) -> Seq<char>
    decreases s.len(),
{
    if s.len() > 0 && is_whitespace_spec(s.first()) {
        trim_start_spec(s.drop_first())
    } else {
        s
    }
}

/// `s` without its trailing whitespace.
pub open spec fn trim_end_spec(s: Seq<char>) -> Seq<char>
    decreases s.len(),
{
    if s.len() > 0 && is_whitespace_spec(s.last()) {
        trim_end_spec(s.drop_last())
    } else {
        s
    }
}

/// `s` without leading and trailing whitespace.
pub open spec fn trim_spec(s: Seq<char>) -> Seq<char> {
    trim_end_spec(trim_start_spec(s))
}

/// Trimming removes whitespace only, and all of it at both ends: the
/// result is a stretch of the text around which everything is
/// whitespace, and it neither starts nor ends with whitespace.
pub proof fn law_trim(s: Seq<char>)
    ensures
        exists|from: int, to: int|
            0 <= from <= to <= s.len() && #[trigger] s.subrange(from, to) == trim_spec(s) && (
            forall|k: int| 0 <= k < from || to <= k < s.len() ==> is_whitespace_spec(s[k])),
        trim_spec(s).len() > 0 ==> !is_whitespace_spec(trim_spec(s).first())
            && !is_whitespace_spec(trim_spec(s).last()),
{
    lemma_trim_start(s);
    let from = choose|from: int|
        0 <= from <= s.len() && trim_start_spec(s) == s.subrange(from, s.len() as int) && (
        forall|k: int| 0 <= k < from ==> is_whitespace_spec(s[k]));
    let rest = s.subrange(from, s.len() as int);
    lemma_trim_end(rest);
    let len = choose|len: int|
        0 <= len <= rest.len() && trim_end_spec(rest) == rest.subrange(0, len) && (forall|k: int|
            len <= k < rest.len() ==> is_whitespace_spec(rest[k]));
    assert(rest.subrange(0, len) == s.subrange(from, from + len));
    assert forall|k: int| 0 <= k < from || from + len <= k < s.len() implies is_whitespace_spec(
        s[k],
    ) by {
        if k >= from + len {
            assert(rest[k - from] == s[k]);
        }
    }
    if trim_spec(s).len() > 0 {
        assert(trim_spec(s).first() == rest.first());
    }
}

/// What trimming the start removes is whitespace, and what it leaves
/// does not start with whitespace.
pub proof fn lemma_trim_start(s: Seq<char>)
    ensures
        exists|from: int|
            0 <= from <= s.len() && trim_start_spec(s) == #[trigger] s.subrange(
                from,
                s.len() as int,
            ) && (forall|k: int| 0 <= k < from ==> is_whitespace_spec(s[k])),
        trim_start_spec(s).len() > 0 ==> !is_whitespace_spec(trim_start_spec(s).first()),
    decreases s.len(),
{
    if s.len() > 0 && is_whitespace_spec(s.first()) {
        let tail = s.drop_first();
        lemma_trim_start(tail);
        let from = choose|from: int|
            0 <= from <= tail.len() && trim_start_spec(tail) == tail.subrange(
                from,
                tail.len() as int,
            ) && (forall|k: int| 0 <= k < from ==> is_whitespace_spec(tail[k]));
        assert(tail.subrange(from, tail.len() as int) == s.subrange(from + 1, s.len() as int));
        assert forall|k: int| 0 <= k < from + 1 implies is_whitespace_spec(s[k]) by {
            if k > 0 {
                assert(tail[k - 1] == s[k]);
            }
        }
    } else {
        assert(s.subrange(0, s.len() as int) == s);
    }
}

/// What trimming the end removes is whitespace, and what it leaves does
/// not end with whitespace.
pub proof fn lemma_trim_end(s: Seq<char>)
    ensures
        exists|len: int|
            0 <= len <= s.len() && trim_end_spec(s) == #[trigger] s.subrange(0, len) && (
            forall|k: int| len <= k < s.len() ==> is_whitespace_spec(s[k])),
        trim_end_spec(s).len() > 0 ==> !is_whitespace_spec(trim_end_spec(s).last()),
        trim_end_spec(s).len() > 0 ==> trim_end_spec(s).first() == s.first(),
    decreases s.len(),
{
    if s.len() > 0 && is_whitespace_spec(s.last()) {
        let head = s.drop_last();
        lemma_trim_end(head);
        let len = choose|len: int|
            0 <= len <= head.len() && trim_end_spec(head) == head.subrange(0, len) && (
            forall|k: int| len <= k < head.len() ==> is_whitespace_spec(head[k]));
        assert(head.subrange(0, len) == s.subrange(0, len));
        assert forall|k: int| len <= k < s.len() implies is_whitespace_spec(s[k]) by {
            if k < head.len() {
                assert(head[k] == s[k]);
            }
        }
    } else {
        assert(s.subrange(0, s.len() as int) == s);
    }
}

/// The length of the run of characters other than whitespace that `s`
/// starts with.
pub open spec fn token_len_spec(s: Seq<char>) -> nat
    decreases s.len(),
{
    if s.len() == 0 || is_whitespace_spec(s.first()) {
        0
    } else {
        1 + token_len_spec(s.drop_first())
    }
}

/// The first run of characters other than whitespace in `s`; empty where
/// `s` holds whitespace only.
pub open spec fn first_token_spec(s: Seq<char>) -> Seq<char> {
    let rest = trim_start_spec(s);
    rest.take(token_len_spec(rest) as int)
}

/// The view of an optional character vector.
pub open spec fn optional_view(text: Option<Vec<char>>) -> Option<Seq<char>> {
    match text {
        Some(text) => Some(text@),
        None => None,
    }
}

/// The views of a sequence of texts.
pub open spec fn text_views(texts: Seq<String>) -> Seq<Seq<char>> {
    texts.map_values(|text: String| text@)
}

/// A copy of an optional text.
pub fn clone_text(text: &Option<String>) -> (copy: Option<String>)
    ensures
        copy == *text,
{
    match text {
        Some(s) => Some(s.clone()),
        None => None,
    }
}

/// The characters of a string, in order.
pub fn chars_of(s: &str) -> (v: Vec<char>)
    ensures
        v@ == s@,
{
    let mut v: Vec<char> = Vec::new();
    for c in it: s.chars()
        invariant
            v@ == it.seq().take(it.index() as int),
            it.seq() == s@,
    {
        v.push(c);
    }
    v
}

/// `String::push`: appends one character to the end of the string.
#[verifier::external_body]
fn push_char(s: &mut String, c: char)
    ensures
        final(s)@ == old(s)@.push(c),
{
    s.push(c)
}

/// The string made of the characters `v[from..to]`.
pub fn string_of_range(v: &Vec<char>, from: usize, to: usize) -> (s: String)
    requires
        from <= to <= v.len(),
    ensures
        s@ == v@.subrange(from as int, to as int),
{
    let mut s = String::new();
    let mut i: usize = from;
    while i < to
        invariant
            from <= i <= to <= v.len(),
            s@ == v@.subrange(from as int, i as int),
        decreases to - i,
    {
        push_char(&mut s, v[i]);
        i += 1;
    }
    s
}

/// Appends the characters of `v` to `out`.
pub fn push_chars(out: &mut String, v: &Vec<char>)
    ensures
        final(out)@ == old(out)@ + v@,
{
    let mut i: usize = 0;
    assert(v@.take(0) == Seq::<char>::empty());
    assert(out@ + Seq::<char>::empty() == out@);
    while i < v.len()
        invariant
            i <= v.len(),
            out@ == old(out)@ + v@.take(i as int),
        decreases v.len() - i,
    {
        push_char(out, v[i]);
        assert(v@.take(i + 1) == v@.take(i as int).push(v@[i as int]));
        assert(out@ == old(out)@ + v@.take(i + 1));
        i += 1;
    }
    assert(v@.take(v.len() as int) == v@);
}

/// The string made of the characters of `v`.
pub fn string_of(v: &Vec<char>) -> (s: String)
    ensures
        s@ == v@,
{
    string_of_range(v, 0, v.len())
}

/// The bounds of `v` without its leading and trailing whitespace.
pub fn trim_bounds(v: &Vec<char>) -> (bounds: (usize, usize))
    ensures
        bounds.0 <= bounds.1 <= v.len(),
        v@.subrange(bounds.0 as int, bounds.1 as int) == trim_spec(v@),
{
    let mut start: usize = 0;
    assert(v@.subrange(0, v.len() as int) == v@);
    while start < v.len() && is_whitespace(v[start])
        invariant
            start <= v.len(),
            trim_start_spec(v@) == trim_start_spec(v@.subrange(start as int, v.len() as int)),
        decreases v.len() - start,
    {
        proof {
            let rest = v@.subrange(start as int, v.len() as int);
            assert(rest.drop_first() == v@.subrange(start + 1, v.len() as int));
        }
        start += 1;
    }
    let mut end: usize = v.len();
    while end > start && is_whitespace(v[end - 1])
        invariant
            start <= end <= v.len(),
            trim_start_spec(v@) == v@.subrange(start as int, v.len() as int),
            trim_spec(v@) == trim_end_spec(v@.subrange(start as int, end as int)),
        decreases end - start,
    {
        proof {
            let cur = v@.subrange(start as int, end as int);
            assert(cur.drop_last() == v@.subrange(start as int, end - 1));
        }
        end -= 1;
    }
    (start, end)
}

/// The first run of characters other than whitespace in `v`.
pub fn first_token(v: &Vec<char>) -> (token: Vec<char>)
    ensures
        token@ == first_token_spec(v@),
{
    let mut start: usize = 0;
    assert(v@.subrange(0, v.len() as int) == v@);
    while start < v.len() && is_whitespace(v[start])
        invariant
            start <= v.len(),
            trim_start_spec(v@) == trim_start_spec(v@.subrange(start as int, v.len() as int)),
        decreases v.len() - start,
    {
        proof {
            let rest = v@.subrange(start as int, v.len() as int);
            assert(rest.drop_first() == v@.subrange(start + 1, v.len() as int));
        }
        start += 1;
    }
    let ghost rest = v@.subrange(start as int, v.len() as int);
    assert(trim_start_spec(v@) == rest);
    let mut end: usize = start;
    assert(v@.subrange(end as int, v.len() as int) == rest);
    while end < v.len() && !is_whitespace(v[end])
        invariant
            start <= end <= v.len(),
            rest == v@.subrange(start as int, v.len() as int),
            token_len_spec(rest) == (end - start) + token_len_spec(
                v@.subrange(end as int, v.len() as int),
            ),
        decreases v.len() - end,
    {
        proof {
            let tail = v@.subrange(end as int, v.len() as int);
            assert(tail.drop_first() == v@.subrange(end + 1, v.len() as int));
        }
        end += 1;
    }
    assert(token_len_spec(rest) == end - start);
    assert(rest.take(end - start) == v@.subrange(start as int, end as int));
    copy_range(v, start, end)
}

/// `v` without leading and trailing whitespace.
pub fn trim(v: &Vec<char>) -> (trimmed: Vec<char>)
    ensures
        trimmed@ == trim_spec(v@),
{
    let (start, end) = trim_bounds(v);
    copy_range(v, start, end)
}

/// A copy of `v[from..to]`.
pub fn copy_range(v: &Vec<char>, from: usize, to: usize) -> (part: Vec<char>)
    requires
        from <= to <= v.len(),
    ensures
        part@ == v@.subrange(from as int, to as int),
{
    let mut part: Vec<char> = Vec::new();
    let mut i: usize = from;
    while i < to
        invariant
            from <= i <= to <= v.len(),
            part@ == v@.subrange(from as int, i as int),
        decreases to - i,
    {
        part.push(v[i]);
        i += 1;
    }
    part
}

} // verus!
