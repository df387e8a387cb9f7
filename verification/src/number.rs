//! Whole numbers as text: digits, the number that they write, and the small
//! numbers that pick a menu entry.

use crate::text::chars_of;
use vstd::prelude::*;

verus! {

/// Whether `c` is one of the ten decimal digits.
pub open spec fn is_digit(c: char) -> bool {
    '0' <= c <= '9'
}

/// Whether every character of `s` is a digit; the empty text counts.
pub open spec fn all_digits(s: Seq<char>) -> bool {
    forall|i: int| 0 <= i < s.len() ==> is_digit(#[trigger] s[i])
}

/// What the digit `c` counts for.
pub open spec fn digit_value(c: char) -> nat {
    (c as nat - '0' as nat) as nat
}

/// The number that the digits of `s` write in base ten.
pub open spec fn decimal_value(s: Seq<char>) -> nat
    decreases s.len(),
{
    if s.len() == 0 {
        0
    } else {
        10 * decimal_value(s.drop_last()) + digit_value(s.last())
    }
}

/// `s` without the plus sign, if it begins with one.
pub open spec fn without_plus(s: Seq<char>) -> Seq<char> {
    if s.len() > 0 && s[0] == '+' {
        s.drop_first()
    } else {
        s
    }
}

/// The whole number from 0 to 255 that `s` writes, if it writes one: an
/// optional plus sign and then digits only, at least one. Leading zeros are
/// accepted, a minus sign and white space are not.
pub open spec fn small_number(s: Seq<char>) -> Option<u8> {
    let digits = without_plus(s);
    if digits.len() > 0 && all_digits(digits) && decimal_value(digits) <= u8::MAX {
        Some(decimal_value(digits) as u8)
    } else {
        None
    }
}

/// Adding digits at the end of a text never makes its number smaller.
proof fn lemma_decimal_value_grows(s: Seq<char>, k: int)
    requires
        0 <= k <= s.len(),
    ensures
        decimal_value(s.take(k)) <= decimal_value(s),
    decreases s.len(),
{
    if k < s.len() {
        assert(s.drop_last().take(k) == s.take(k));
        lemma_decimal_value_grows(s.drop_last(), k);
    } else {
        assert(s.take(k) == s);
    }
}

/// Reads a whole number from 0 to 255.
pub fn parse_small_number(s: &str) -> (number: Option<u8>)
    ensures
        number == small_number(s@),
{
    let v = chars_of(s);
    let n = v.len();
    let first: usize = if n > 0 && v[0] == '+' {
        1
    } else {
        0
    };
    if first == n {
        return None;
    }
    let ghost digits = s@.subrange(first as int, n as int);
    assert(digits == without_plus(s@));
    let mut value: u32 = 0;
    let mut i: usize = first;
    while i < n
        invariant
            first <= i <= n,
            n == v.len(),
            v@ == s@,
            digits == s@.subrange(first as int, n as int),
            digits == without_plus(s@),
            all_digits(digits.take(i - first)),
            value == decimal_value(digits.take(i - first)),
            value <= u8::MAX,
        decreases n - i,
    {
        let c = v[i];
        let ghost seen = digits.take(i - first + 1);
        assert(seen.drop_last() == digits.take(i - first));
        assert(seen.last() == c);
        if !(c >= '0' && c <= '9') {
            assert(!is_digit(digits[i - first]));
            return None;
        }
        value = value * 10 + (c as u32 - '0' as u32);
        if value > 255 {
            proof {
                lemma_decimal_value_grows(digits, i - first + 1);
            }
            return None;
        }
        assert forall|k: int| 0 <= k < seen.len() implies is_digit(#[trigger] seen[k]) by {
            if k < seen.len() - 1 {
                assert(seen[k] == digits.take(i - first)[k]);
            }
        }
        i += 1;
    }
    assert(digits.take(n - first) == digits);
    Some(value as u8)
}

} // verus!
