//! Building report text line by line.

use crate::text::chars::push_chars;
use crate::text::number::{decimal, decimal_spec};
use vstd::prelude::*;

verus! {

/// A label, a value and a line feed.
pub open spec fn line_spec(label: Seq<char>, value: Seq<char>) -> Seq<char> {
    label + value + "\n"@
}

/// The line of a value that may be missing: no text at all where it is.
pub open spec fn optional_line_spec(label: Seq<char>, value: Option<Seq<char>>) -> Seq<char> {
    match value {
        Some(value) => line_spec(label, value),
        None => Seq::empty(),
    }
}

/// A text, or the word `Unknown` in its place.
pub open spec fn or_unknown_spec(text: Option<Seq<char>>) -> Seq<char> {
    match text {
        Some(text) => text,
        None => "Unknown"@,
    }
}

/// Appends a label, a value and a line feed.
pub fn push_line(out: &mut String, label: &str, value: &str)
    ensures
        final(out)@ == old(out)@ + line_spec(label@, value@),
{
    out.append(label);
    out.append(value);
    out.append("\n");
    assert(out@ =~= old(out)@ + line_spec(label@, value@));
}

/// Appends the line of a value that may be missing.
pub fn push_optional_line(out: &mut String, label: &str, value: &Option<String>)
    ensures
        final(out)@ == old(out)@ + optional_line_spec(label@, value.deep_view()),
{
    match value {
        Some(value) => {
            push_line(out, label, value.as_str());
        },
        None => {
            assert(out@ =~= old(out)@ + Seq::<char>::empty());
        },
    }
}

/// A text, or the word `Unknown` in its place.
pub fn or_unknown(text: &Option<String>) -> (shown: &str)
    ensures
        shown@ == or_unknown_spec(text.deep_view()),
{
    match text {
        Some(text) => text.as_str(),
        None => "Unknown",
    }
}

/// A number and a unit after it.
pub open spec fn quantity_spec(n: nat, unit: Seq<char>) -> Seq<char> {
    decimal_spec(n) + unit
}

/// A number in base ten and a unit after it.
pub fn quantity(n: u64, unit: &str) -> (text: String)
    ensures
        text@ == quantity_spec(n as nat, unit@),
{
    let mut text = String::new();
    let digits = decimal(n);
    push_chars(&mut text, &digits);
    text.append(unit);
    assert(text@ =~= quantity_spec(n as nat, unit@));
    text
}

} // verus!
