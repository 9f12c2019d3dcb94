//! Decimal numbers as text: parsing and printing of unsigned integers.

use vstd::prelude::*;

verus! {

/// `c` is one of the ASCII digits `0` to `9`.
pub open spec fn is_digit_spec(c: char) -> bool {
    0x30 <= c as u32 <= 0x39
}

/// The value of an ASCII digit.
pub open spec fn digit_value(c: char) -> nat {
    (c as u32 - 0x30) as nat
}

/// Every character of `s` is an ASCII digit.
pub open spec fn all_digits(s: Seq<char>) -> bool {
    forall|i: int| 0 <= i < s.len() ==> is_digit_spec(#[trigger] s[i])
}

/// The number that a sequence of digits writes in base ten.
pub open spec fn digits_value(s: Seq<char>) -> nat
    decreases s.len(),
{
    if s.len() == 0 {
        0
    } else {
        digits_value(s.drop_last()) * 10 + digit_value(s.last())
    }
}

/// `s` without one leading plus sign.
pub open spec fn unsigned_body(s: Seq<char>) -> Seq<char> {
    if s.len() > 0 && s.first() == '+' {
        s.drop_first()
    } else {
        s
    }
}

/// The unsigned number written by `s`, where it is at most `max`: an
/// optional plus sign followed by one or more digits and nothing else.
pub open spec fn parse_unsigned_spec(s: Seq<char>, max: nat) -> Option<nat> {
    let body = unsigned_body(s);
    if body.len() > 0 && all_digits(body) && digits_value(body) <= max {
        Some(digits_value(body))
    } else {
        None
    }
}

/// A prefix of a digit sequence writes a number no larger than the whole.
pub proof fn lemma_digits_value_prefix(s: Seq<char>, k: int)
    requires
        0 <= k <= s.len(),
    ensures
        digits_value(s.take(k)) <= digits_value(s),
    decreases s.len(),
{
    if k == s.len() {
        assert(s.take(k) == s);
    } else {
        lemma_digits_value_prefix(s.drop_last(), k);
        assert(s.drop_last().take(k) == s.take(k));
    }
}

#[verifier::when_used_as_spec(is_digit_spec)]
pub fn is_digit(c: char) -> (digit: bool)
    ensures
        digit == is_digit_spec(c),
{
    let code: u32 = c as u32;
    0x30 <= code && code <= 0x39
}

/// Parses an unsigned decimal number that is at most `max`.
pub fn parse_unsigned(v: &Vec<char>, max: u64) -> (parsed: Option<u64>)
    ensures
        match parsed {
            Some(n) => parse_unsigned_spec(v@, max as nat) == Some(n as nat),
            None => parse_unsigned_spec(v@, max as nat) is None,
        },
{
    let start: usize = if v.len() > 0 && v[0] == '+' {
        1
    } else {
        0
    };
    if start == v.len() {
        return None;
    }
    let ghost body = unsigned_body(v@);
    assert(body == v@.subrange(start as int, v.len() as int));
    let mut value: u64 = 0;
    let mut i: usize = start;
    assert(body.take(0) == Seq::<char>::empty());
    while i < v.len()
        invariant
            start <= i <= v.len(),
            start < v.len(),
            body == unsigned_body(v@),
            body == v@.subrange(start as int, v.len() as int),
            all_digits(body.take(i - start)),
            value == digits_value(body.take(i - start)),
            value <= max,
        decreases v.len() - i,
    {
        let c = v[i];
        let ghost next = body.take(i - start + 1);
        proof {
            assert(next.drop_last() == body.take(i - start));
            assert(next.last() == c);
            assert(body[i - start] == c);
        }
        if !is_digit(c) {
            assert(!is_digit_spec(body[i - start]));
            return None;
        }
        let digit: u64 = (c as u32 - 0x30) as u64;
        if digit > max || value > (max - digit) / 10 {
            proof {
                assert(digits_value(next) == value * 10 + digit);
                assert(value * 10 + digit > max);
                lemma_digits_value_prefix(body, i - start + 1);
            }
            return None;
        }
        value = value * 10 + digit;
        proof {
            assert forall|k: int| 0 <= k < next.len() implies is_digit_spec(
                #[trigger] next[k],
            ) by {
                if k < i - start {
                    assert(body.take(i - start)[k] == next[k]);
                }
            }
        }
        i += 1;
    }
    assert(body.take(body.len() as int) == body);
    Some(value)
}

/// The character of a decimal digit.
pub open spec fn digit_char(d: nat) -> char
    recommends
        d < 10,
{
    ((0x30 + d) as u8) as char
}

/// `n` written in base ten without leading zeros.
pub open spec fn decimal_spec(n: nat) -> Seq<char>
    decreases n,
{
    if n < 10 {
        seq![digit_char(n)]
    } else {
        decimal_spec(n / 10).push(digit_char(n % 10))
    }
}

/// Appends `n` in base ten to `out`.
pub fn push_decimal(out: &mut Vec<char>, n: u64)
    ensures
        final(out)@ == old(out)@ + decimal_spec(n as nat),
    decreases n,
{
    if n >= 10 {
        push_decimal(out, n / 10);
    }
    let digit: u8 = (n % 10) as u8;
    out.push((0x30 + digit) as char);
    proof {
        if n >= 10 {
            assert(final(out)@ =~= old(out)@ + decimal_spec(n as nat));
        } else {
            assert(final(out)@ =~= old(out)@ + decimal_spec(n as nat));
        }
    }
}

/// `n` written in base ten.
pub fn decimal(n: u64) -> (text: Vec<char>)
    ensures
        text@ == decimal_spec(n as nat),
{
    let mut text: Vec<char> = Vec::new();
    push_decimal(&mut text, n);
    text
}

/// `n` written in base ten, with a minus sign where it is negative.
pub open spec fn signed_decimal_spec(n: int) -> Seq<char> {
    if n < 0 {
        seq!['-'] + decimal_spec((-n) as nat)
    } else {
        decimal_spec(n as nat)
    }
}

/// `n` written in base ten, with a minus sign where it is negative.
pub fn signed_decimal(n: i64) -> (text: Vec<char>)
    ensures
        text@ == signed_decimal_spec(n as int),
{
    let mut text: Vec<char> = Vec::new();
    if n < 0 {
        text.push('-');
        let magnitude: u64 = (-(n + 1)) as u64 + 1;
        push_decimal(&mut text, magnitude);
    } else {
        push_decimal(&mut text, n as u64);
    }
    text
}

} // verus!
