//! Unsigned numbers written in decimal digits.

use vstd::prelude::*;
use vstd::string::StrSliceExecFns;

verus! {

/// Whether `c` is one of the ten decimal digits.
pub open spec fn is_digit(c: char) -> bool {
    '0' <= c && c <= '9'
}

/// Whether `text` is a nonempty run of decimal digits.
pub open spec fn all_digits(text: Seq<char>) -> bool {
    text.len() > 0 && forall|i: int| 0 <= i < text.len() ==> is_digit(#[trigger] text[i])
}

/// The number that a run of decimal digits writes.
pub open spec fn decimal_value(digits: Seq<char>) -> nat
    decreases digits.len(),
{
    if digits.len() == 0 {
        0
    } else {
        decimal_value(digits.drop_last()) * 10 + (digits.last() as nat - '0' as nat) as nat
    }
}

/// The part of `text` that is to be digits: all of it, or, where a sign is allowed and
/// `text` begins with a plus sign, what follows the sign.
pub open spec fn digits_of(text: Seq<char>, sign_allowed: bool) -> Seq<char> {
    if sign_allowed && text.len() > 0 && text[0] == '+' {
        text.drop_first()
    } else {
        text
    }
}

/// The number that `text` writes, where it writes one that is at most `limit`.
pub open spec fn decimal_within(text: Seq<char>, sign_allowed: bool, limit: nat) -> Option<nat> {
    let digits = digits_of(text, sign_allowed);
    if all_digits(digits) && decimal_value(digits) <= limit {
        Some(decimal_value(digits))
    } else {
        None
    }
}

/// A longer run of digits writes a number that is at least as large as any of its
/// beginnings.
pub proof fn lemma_decimal_value_grows(digits: Seq<char>, k: int)
    requires
        0 <= k <= digits.len(),
    ensures
        decimal_value(digits.take(k)) <= decimal_value(digits),
    decreases digits.len() - k,
{
    if k == digits.len() {
        assert(digits.take(k) =~= digits);
    } else {
        lemma_decimal_value_grows(digits, k + 1);
        assert(digits.take(k + 1).drop_last() =~= digits.take(k));
    }
}

/// Reads `text` as an unsigned number of at most `limit`, written as a nonempty run of
/// decimal digits, after a plus sign where `sign_allowed` says so.
pub fn parse_decimal(text: &str, sign_allowed: bool, limit: u64) -> (number: Option<u64>)
    ensures
        match decimal_within(text@, sign_allowed, limit as nat) {
            Some(value) => number == Some(value as u64),
            None => number is None,
        },
{
    let ghost digits = digits_of(text@, sign_allowed);
    if !text.is_ascii() {
        assert(!all_digits(digits)) by {
            if all_digits(digits) {
                assert forall|i: int| 0 <= i < text@.len() implies '\0' <= #[trigger] text@[i]
                    <= '\u{7f}' by {
                    if digits.len() == text@.len() {
                        assert(is_digit(digits[i]));
                    } else if i > 0 {
                        assert(is_digit(digits[i - 1]));
                    }
                }
            }
        }
        return None;
    }
    let length: usize = text.unicode_len();
    let start: usize = if sign_allowed && length > 0 && text.get_ascii(0) == 43 {
        1
    } else {
        0
    };
    assert(digits.len() == length - start);
    assert(forall|k: int| 0 <= k < digits.len() ==> digits[k] == text@[start + k]);
    if start == length {
        return None;
    }
    let mut value: u64 = 0;
    let mut i: usize = start;
    while i < length
        invariant
            vstd::string::is_ascii(text),
            length == text@.len(),
            start <= i <= length,
            digits == digits_of(text@, sign_allowed),
            digits.len() == length - start,
            forall|k: int| 0 <= k < digits.len() ==> digits[k] == text@[start + k],
            value == decimal_value(digits.take(i - start)),
            value <= limit,
            forall|k: int| 0 <= k < i - start ==> is_digit(#[trigger] digits[k]),
        decreases length - i,
    {
        let byte: u8 = text.get_ascii(i);
        if byte < 48 || byte > 57 {
            assert(!is_digit(digits[i - start]));
            return None;
        }
        let digit: u64 = (byte - 48) as u64;
        proof {
            assert(digits.take(i - start + 1).drop_last() =~= digits.take(i - start));
            assert(digits.take(i - start + 1).last() == digits[i - start]);
            lemma_decimal_value_grows(digits, i - start + 1);
        }
        if digit > limit || value > (limit - digit) / 10 {
            return None;
        }
        value = value * 10 + digit;
        i = i + 1;
    }
    assert(digits.take(length - start) =~= digits);
    Some(value)
}

} // verus!
