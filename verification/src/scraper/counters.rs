//! Counters that arrive as decimal text.
//!
//! A counter is an optional sign, `+` or `-`, followed by one or more of the
//! digits `0` to `9` and nothing else, and its value fits in an `i64`: what
//! `str::parse::<i64>` accepts. Text that is no counter counts as zero.

use crate::sequences::{option_view, to_chars};
use vstd::prelude::*;

verus! {

/// Whether a character is one of the ten ASCII digits.
pub open spec fn is_digit(c: char) -> bool {
    '0' <= c <= '9'
}

/// The value of an ASCII digit.
pub open spec fn digit_value(c: char) -> int {
    c as int - '0' as int
}

/// Whether every character of a text is an ASCII digit.
pub open spec fn all_digits(text: Seq<char>) -> bool {
    forall|i: int| 0 <= i < text.len() ==> is_digit(#[trigger] text[i])
}

/// The number that a run of digits writes in base ten; the empty run writes
/// zero.
pub open spec fn digits_value(digits: Seq<char>) -> int
    decreases digits.len(),
{
    if digits.len() == 0 {
        0
    } else {
        digits_value(digits.drop_last()) * 10 + digit_value(digits.last())
    }
}

/// Whether a text starts with a sign.
pub open spec fn has_sign(text: Seq<char>) -> bool {
    text.len() > 0 && (text[0] == '+' || text[0] == '-')
}

/// The text without its sign, if it has one.
pub open spec fn unsigned_part(text: Seq<char>) -> Seq<char> {
    if has_sign(text) {
        text.subrange(1, text.len() as int)
    } else {
        text
    }
}

/// The integer that a signed run of digits writes.
pub open spec fn signed_value(text: Seq<char>) -> int {
    if text.len() > 0 && text[0] == '-' {
        -digits_value(unsigned_part(text))
    } else {
        digits_value(unsigned_part(text))
    }
}

/// The value of a text as a decimal `i64`, or `None` where the text is not
/// one: no digit, a character that is neither a digit nor a leading sign, or
/// a value out of range.
pub open spec fn decimal_i64(text: Seq<char>) -> Option<i64> {
    if unsigned_part(text).len() > 0 && all_digits(unsigned_part(text)) && i64::MIN
        <= signed_value(text) <= i64::MAX {
        Some(signed_value(text) as i64)
    } else {
        None
    }
}

/// The value of a counter that may be absent or malformed: zero in both
/// cases.
pub open spec fn count_or_zero(text: Option<Seq<char>>) -> i64 {
    match text {
        Some(digits) => match decimal_i64(digits) {
            Some(value) => value,
            None => 0,
        },
        None => 0,
    }
}

/// Reads a decimal `i64`.
pub fn parse_i64(text: &str) -> (value: Option<i64>)
    ensures
        value == decimal_i64(text@),
{
    let chars: Vec<char> = to_chars(text);
    let n: usize = chars.len();
    let mut negative: bool = false;
    let mut start: usize = 0;
    if n > 0 {
        let first: char = chars[0];
        if first == '-' {
            negative = true;
            start = 1;
        } else if first == '+' {
            start = 1;
        }
    }
    if start >= n {
        return None;
    }
    let ghost digits = unsigned_part(text@);
    assert(digits =~= chars@.subrange(start as int, n as int));
    // One more than the largest magnitude an i64 can hold.
    let limit: i128 = 9_223_372_036_854_775_808i128;
    let mut magnitude: i128 = 0;
    let mut too_large: bool = false;
    let mut i: usize = start;
    while i < n
        invariant
            start <= i <= n,
            n == chars@.len(),
            digits == chars@.subrange(start as int, n as int),
            digits == unsigned_part(text@),
            limit == 9_223_372_036_854_775_808i128,
            all_digits(digits.subrange(0, i - start)),
            !too_large ==> 0 <= magnitude <= limit && magnitude == digits_value(
                digits.subrange(0, i - start),
            ),
            too_large ==> digits_value(digits.subrange(0, i - start)) > limit,
        decreases n - i,
    {
        let c: char = chars[i];
        let ghost seen = digits.subrange(0, i - start);
        let ghost next = digits.subrange(0, i - start + 1);
        assert(digits[i - start] == c);
        if c < '0' || c > '9' {
            assert(!is_digit(digits[i - start]));
            return None;
        }
        let digit: i128 = (c as u32 - '0' as u32) as i128;
        proof {
            assert(next.drop_last() =~= seen);
            assert(next.last() == c);
            assert(digit == digit_value(c));
            assert forall|k: int| 0 <= k < next.len() implies is_digit(#[trigger] next[k]) by {
                if k < seen.len() {
                    assert(next[k] == seen[k]);
                }
            }
        }
        if !too_large {
            magnitude = magnitude * 10 + digit;
            if magnitude > limit {
                too_large = true;
            }
        }
        i = i + 1;
    }
    proof {
        assert(digits.subrange(0, n - start) =~= digits);
    }
    if too_large {
        None
    } else if negative {
        Some((-magnitude) as i64)
    } else if magnitude == limit {
        None
    } else {
        Some(magnitude as i64)
    }
}

/// Reads a counter, counting text that is no decimal `i64` as zero.
pub fn parse_count(text: &str) -> (count: i64)
    ensures
        count == count_or_zero(Some(text@)),
{
    match parse_i64(text) {
        Some(value) => value,
        None => 0,
    }
}

/// Reads a counter that may be absent, counting absence as zero.
pub fn parse_optional_count(text: &Option<String>) -> (count: i64)
    ensures
        count == count_or_zero(option_view(*text)),
{
    match text {
        Some(digits) => parse_count(digits.as_str()),
        None => 0,
    }
}

} // verus!
