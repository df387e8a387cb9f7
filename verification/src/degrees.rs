//! Degrees as text: the grammar of the numbers that are accepted, and the
//! readings that are made of them.

use crate::number::{all_digits, is_digit};
use crate::scale::Scale;
use crate::text::chars_of;
use vstd::prelude::*;

verus! {

/// Whether `c` is a plus or a minus sign.
pub open spec fn is_sign(c: char) -> bool {
    c == '+' || c == '-'
}

/// `s` without its sign, if it begins with one.
pub open spec fn without_sign(s: Seq<char>) -> Seq<char> {
    if s.len() > 0 && is_sign(s[0]) {
        s.drop_first()
    } else {
        s
    }
}

/// Digits with at most one decimal point among them: `7`, `7.`, `.5`, `7.5`.
/// At least one digit is needed; the point alone is no mantissa.
pub open spec fn is_mantissa(s: Seq<char>) -> bool {
    ||| s.len() > 0 && all_digits(s)
    ||| exists|p: int|
        0 <= p < s.len() && #[trigger] s[p] == '.' && s.len() > 1 && all_digits(s.take(p))
            && all_digits(s.skip(p + 1))
}

/// The letter `e` in either case, an optional sign, and then digits, at
/// least one.
pub open spec fn is_exponent(s: Seq<char>) -> bool {
    &&& s.len() > 0
    &&& (s[0] == 'e' || s[0] == 'E')
    &&& without_sign(s.drop_first()).len() > 0
    &&& all_digits(without_sign(s.drop_first()))
}

/// A mantissa, with or without an exponent behind it.
pub open spec fn is_number(s: Seq<char>) -> bool {
    exists|k: int|
        0 <= k <= s.len() && #[trigger] is_mantissa(s.take(k)) && (k == s.len() || is_exponent(
            s.skip(k),
        ))
}

/// The lower-case form of an ASCII capital; any other character itself.
pub open spec fn lower(c: char) -> char {
    if 'A' <= c <= 'Z' {
        (c as u32 + 32) as char
    } else {
        c
    }
}

/// Whether `s` is `word` when case is ignored; `word` is in lower case.
pub open spec fn spells(s: Seq<char>, word: Seq<char>) -> bool {
    s.len() == word.len() && forall|i: int| 0 <= i < s.len() ==> lower(#[trigger] s[i]) == word[i]
}

/// The texts that are accepted as degrees: an optional sign, and then a
/// number or one of the words `inf`, `infinity` and `nan` in any case.
/// Nothing may stand before or behind, white space included.
pub open spec fn is_degree_text(s: Seq<char>) -> bool {
    let body = without_sign(s);
    ||| is_number(body)
    ||| spells(body, seq!['i', 'n', 'f'])
    ||| spells(body, seq!['i', 'n', 'f', 'i', 'n', 'i', 't', 'y'])
    ||| spells(body, seq!['n', 'a', 'n'])
}

/// Where the digits that begin at `from` end.
fn digits_end(v: &Vec<char>, from: usize) -> (end: usize)
    requires
        from <= v.len(),
    ensures
        from <= end <= v.len(),
        forall|i: int| from <= i < end ==> is_digit(#[trigger] v@[i]),
        end < v.len() ==> !is_digit(v@[end as int]),
{
    let mut end: usize = from;
    while end < v.len() && v[end] >= '0' && v[end] <= '9'
        invariant
            from <= end <= v.len(),
            forall|i: int| from <= i < end ==> is_digit(#[trigger] v@[i]),
        decreases v.len() - end,
    {
        end += 1;
    }
    end
}

/// A text has one place at most where a mantissa can end and an exponent or
/// nothing follows: where a scan over digits, one point and digits stops.
proof fn lemma_mantissa_end(t: Seq<char>, a: int, b: int, k: int)
    requires
        0 <= a <= b <= t.len(),
        forall|i: int| 0 <= i < a ==> is_digit(#[trigger] t[i]),
        a < t.len() ==> !is_digit(t[a]),
        a < t.len() && t[a] == '.' ==> a < b,
        !(a < t.len() && t[a] == '.') ==> a == b,
        forall|i: int| a < i < b ==> is_digit(#[trigger] t[i]),
        b < t.len() ==> !is_digit(t[b]),
        0 <= k <= t.len(),
        is_mantissa(t.take(k)),
        k < t.len() ==> t[k] == 'e' || t[k] == 'E',
    ensures
        k == b,
{
    let m = t.take(k);
    if m.len() > 0 && all_digits(m) {
        if k > a {
            assert(is_digit(m[a]));
        }
    } else {
        let p = choose|p: int|
            0 <= p < m.len() && #[trigger] m[p] == '.' && m.len() > 1 && all_digits(m.take(p))
                && all_digits(m.skip(p + 1));
        if p > a {
            assert(is_digit(m.take(p)[a]));
        }
        assert(p == a);
        if k > b {
            assert(is_digit(m.skip(p + 1)[b - p - 1]));
        }
    }
}

/// Tells whether the characters of `v` from `start` on are a number.
fn number_from(v: &Vec<char>, start: usize) -> (valid: bool)
    requires
        start <= v.len(),
    ensures
        valid == is_number(v@.skip(start as int)),
{
    let n = v.len();
    let ghost t = v@.skip(start as int);
    let a = digits_end(v, start);
    let dotted = a < n && v[a] == '.';
    let b = if dotted {
        digits_end(v, a + 1)
    } else {
        a
    };
    let digits = if dotted {
        (a - start) + (b - a - 1)
    } else {
        a - start
    };
    assert forall|k: int|
        0 <= k <= t.len() && #[trigger] is_mantissa(t.take(k)) && (k == t.len() || is_exponent(
            t.skip(k),
        )) implies k == b - start by {
        assert(forall|i: int| 0 <= i < t.len() ==> t[i] == v@[start + i]);
        lemma_mantissa_end(t, a - start, b - start, k);
    }
    let ghost m = t.take(b - start);
    assert(is_mantissa(m) <==> digits > 0) by {
        assert(forall|i: int| 0 <= i < m.len() ==> m[i] == v@[start + i]);
        if dotted {
            let p = a - start;
            assert(m[p] == '.');
            assert(!all_digits(m));
            if digits > 0 {
                assert(all_digits(m.take(p)));
                assert(all_digits(m.skip(p + 1)));
            } else {
                assert(m.len() == 1);
            }
        } else {
            assert(all_digits(m));
            if digits == 0 {
                assert(m.len() == 0);
            }
        }
    }
    if digits == 0 {
        return false;
    }
    if b == n {
        return true;
    }
    let ghost rest = t.skip(b - start);
    assert(rest.len() > 0 && rest[0] == v@[b as int]);
    if !(v[b] == 'e' || v[b] == 'E') {
        return false;
    }
    let signed = b + 1 < n && (v[b + 1] == '+' || v[b + 1] == '-');
    let e: usize = if signed {
        b + 2
    } else {
        b + 1
    };
    let ghost tail = without_sign(rest.drop_first());
    assert(tail == v@.skip(e as int)) by {
        assert(rest.drop_first() == v@.skip(b + 1));
        if signed {
            assert(v@.skip(b + 1).drop_first() == v@.skip(b + 2));
        }
    }
    if e == n {
        return false;
    }
    let end = digits_end(v, e);
    assert(all_digits(tail) <==> end == n) by {
        assert(forall|i: int| 0 <= i < tail.len() ==> tail[i] == v@[e + i]);
        if end < n {
            assert(!is_digit(tail[end - e]));
        }
    }
    end == n
}

/// Tells whether `letter` is the lower-case form of `c`.
fn lowers_to(c: char, letter: char) -> (same: bool)
    ensures
        same == (lower(c) == letter),
{
    if c >= 'A' && c <= 'Z' {
        c as u32 + 32 == letter as u32
    } else {
        c == letter
    }
}

/// Tells whether the characters of `v` from `start` on are `word`, case
/// ignored.
fn spells_from(v: &Vec<char>, start: usize, word: &str) -> (same: bool)
    requires
        start <= v.len(),
    ensures
        same == spells(v@.skip(start as int), word@),
{
    let w = chars_of(word);
    if v.len() - start != w.len() {
        return false;
    }
    let ghost t = v@.skip(start as int);
    let mut i: usize = 0;
    while i < w.len()
        invariant
            i <= w.len(),
            start + w.len() == v.len(),
            w@ == word@,
            t == v@.skip(start as int),
            forall|j: int| 0 <= j < i ==> lower(#[trigger] t[j]) == w@[j],
        decreases w.len() - i,
    {
        let c = v[start + i];
        assert(c == t[i as int]);
        if !lowers_to(c, w[i]) {
            return false;
        }
        i += 1;
    }
    true
}

/// Tells whether `s` is accepted as degrees.
pub fn is_degrees(s: &str) -> (valid: bool)
    ensures
        valid == is_degree_text(s@),
{
    let v = chars_of(s);
    let start: usize = if v.len() > 0 && (v[0] == '+' || v[0] == '-') {
        1
    } else {
        0
    };
    proof {
        assert(without_sign(s@) == v@.skip(start as int));
        reveal_strlit("inf");
        reveal_strlit("infinity");
        reveal_strlit("nan");
        assert("inf"@ == seq!['i', 'n', 'f']);
        assert("infinity"@ == seq!['i', 'n', 'f', 'i', 'n', 'i', 't', 'y']);
        assert("nan"@ == seq!['n', 'a', 'n']);
    }
    number_from(&v, start) || spells_from(&v, start, "inf") || spells_from(&v, start, "infinity")
        || spells_from(&v, start, "nan")
}

/// Degrees in a scale, held as the text that was entered. The text is always
/// one that is accepted as degrees.
#[derive(Debug, PartialEq, Eq)]
pub struct Reading {
    scale: Scale,
    degrees: String,
}

/// What a `Reading` stands for.
pub struct ReadingView {
    pub scale: Scale,
    pub degrees: Seq<char>,
}

impl View for Reading {
    type V = ReadingView;

    closed spec fn view(&self) -> ReadingView {
        ReadingView { scale: self.scale, degrees: self.degrees@ }
    }
}

impl Clone for Reading {
    fn clone(&self) -> (copy: Reading)
        ensures
            copy@ == self@,
    {
        proof {
            use_type_invariant(self);
        }
        Reading { scale: self.scale, degrees: self.degrees.clone() }
    }
}

impl Reading {
    #[verifier::type_invariant]
    spec fn valid(&self) -> bool {
        is_degree_text(self.degrees@)
    }

    /// Takes `degrees` as a reading in `scale`, if the text is accepted as
    /// degrees.
    pub fn new(scale: Scale, degrees: &str) -> (reading: Option<Reading>)
        ensures
            match reading {
                Some(r) => is_degree_text(degrees@) && r@ == (ReadingView {
                    scale,
                    degrees: degrees@,
                }),
                None => !is_degree_text(degrees@),
            },
    {
        if is_degrees(degrees) {
            Some(Reading { scale, degrees: degrees.to_owned() })
        } else {
            None
        }
    }

    /// The scale of the reading.
    pub fn scale(&self) -> (scale: Scale)
        ensures
            scale == self@.scale,
    {
        self.scale
    }

    /// The degrees as they were entered.
    pub fn degrees(&self) -> (text: &str)
        ensures
            text@ == self@.degrees,
            is_degree_text(text@),
    {
        proof {
            use_type_invariant(self);
        }
        self.degrees.as_str()
    }
}

} // verus!
