//! How numbers and conversions are laid out as text.

use crate::number::{all_digits, decimal_value, digit_value, is_digit};
use crate::scale::Scale;
use vstd::prelude::*;

verus! {

/// The character that writes the digit `d`.
pub open spec fn digit_char(d: nat) -> char {
    ('0' as nat + d) as char
}

/// The digits that write `n` in base ten, without leading zeros.
pub open spec fn digits_of(n: nat) -> Seq<char>
    decreases n,
{
    if n < 10 {
        seq![digit_char(n)]
    } else {
        digits_of(n / 10).push(digit_char(n % 10))
    }
}

/// The whole number `n` written with two decimals, as in `-40.00`.
pub open spec fn whole_text(n: int) -> Seq<char> {
    if n < 0 {
        seq!['-'] + digits_of((-n) as nat) + seq!['.', '0', '0']
    } else {
        digits_of(n as nat) + seq!['.', '0', '0']
    }
}

/// `count` spaces.
pub open spec fn spaces(count: nat) -> Seq<char> {
    Seq::new(count, |i: int| ' ')
}

/// `text` with spaces before it that fill it up to `width` characters; a
/// longer text stays as it is.
pub open spec fn right_aligned(text: Seq<char>, width: nat) -> Seq<char> {
    if text.len() >= width {
        text
    } else {
        spaces((width - text.len()) as nat) + text
    }
}

/// The block that shows a conversion from `from`: an empty line, the
/// degrees with their scale's mark, an equals sign, the converted degrees
/// with the other scale's mark, and an empty line.
pub open spec fn conversion_block(from: Scale, degrees: Seq<char>, converted: Seq<char>) -> Seq<
    char,
> {
    "\n"@ + degrees + from.spec_label() + " = "@ + converted + from.spec_opposite().spec_label()
        + "\n\n"@
}

/// What is written is read back: the digits that write `n` are digits
/// indeed, and the number that they write is `n`.
pub proof fn lemma_digits_read_back(n: nat)
    ensures
        digits_of(n).len() > 0,
        all_digits(digits_of(n)),
        decimal_value(digits_of(n)) == n,
    decreases n,
{
    let digits = digits_of(n);
    let last = digit_char(n % 10);
    assert(is_digit(last) && digit_value(last) == n % 10);
    assert(digits.last() == last);
    if n < 10 {
        assert(digits.drop_last() == Seq::<char>::empty());
        assert(decimal_value(digits.drop_last()) == 0);
    } else {
        lemma_digits_read_back(n / 10);
        assert(digits.drop_last() == digits_of(n / 10));
        assert(decimal_value(digits) == 10 * (n / 10) + n % 10);
    }
}

/// The text that writes one digit.
fn digit_text(d: u32) -> (text: &'static str)
    requires
        d < 10,
    ensures
        text@ == seq![digit_char(d as nat)],
{
    proof {
        reveal_strlit("0");
        reveal_strlit("1");
        reveal_strlit("2");
        reveal_strlit("3");
        reveal_strlit("4");
        reveal_strlit("5");
        reveal_strlit("6");
        reveal_strlit("7");
        reveal_strlit("8");
        reveal_strlit("9");
    }
    let text = match d {
        0 => "0",
        1 => "1",
        2 => "2",
        3 => "3",
        4 => "4",
        5 => "5",
        6 => "6",
        7 => "7",
        8 => "8",
        _ => "9",
    };
    assert(text@ =~= seq![digit_char(d as nat)]);
    text
}

/// Writes the digits of `n` at the end of `text`.
fn push_digits(text: &mut String, n: u32)
    ensures
        final(text)@ == old(text)@ + digits_of(n as nat),
    decreases n,
{
    if n >= 10 {
        push_digits(text, n / 10);
    }
    text.append(digit_text(n % 10));
}

/// Writes `count` spaces at the end of `text`.
fn push_spaces(text: &mut String, count: usize)
    ensures
        final(text)@ == old(text)@ + spaces(count as nat),
{
    let mut done: usize = 0;
    proof {
        reveal_strlit(" ");
    }
    while done < count
        invariant
            done <= count,
            text@ == old(text)@ + spaces(done as nat),
            " "@ == seq![' '],
        decreases count - done,
    {
        text.append(" ");
        done += 1;
    }
}

/// Writes the whole number `n` with two decimals.
pub fn whole_number(n: i32) -> (text: String)
    ensures
        text@ == whole_text(n as int),
{
    let mut text = String::new();
    proof {
        reveal_strlit("-");
        reveal_strlit(".00");
    }
    if n < 0 {
        text.append("-");
        push_digits(&mut text, (-(n as i64)) as u32);
    } else {
        push_digits(&mut text, n as u32);
    }
    text.append(".00");
    text
}

/// Fills `text` up to `width` characters with spaces before it.
pub fn align_right(text: &str, width: usize) -> (aligned: String)
    ensures
        aligned@ == right_aligned(text@, width as nat),
{
    let length = text.unicode_len();
    let mut aligned = String::new();
    if length < width {
        push_spaces(&mut aligned, width - length);
    }
    aligned.append(text);
    aligned
}

/// Lays out the conversion from `from`. `degrees` and `converted` are the
/// two numbers as they are to be shown.
pub fn conversion_text(from: Scale, degrees: &str, converted: &str) -> (text: String)
    ensures
        text@ == conversion_block(from, degrees@, converted@),
{
    let mut text = String::from_str("\n");
    text.append(degrees);
    text.append(from.label());
    text.append(" = ");
    text.append(converted);
    text.append(from.opposite().label());
    text.append("\n\n");
    text
}

} // verus!
