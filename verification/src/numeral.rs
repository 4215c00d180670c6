//! Decimal numerals in the panel's text buffers.
//!
//! The editor keeps free-text buffers for the odometer, the plate number,
//! the star count and the medal counts. A buffer is read as an unsigned
//! decimal numeral — an optional leading `+`, then one or more digits,
//! with a value that fits in 32 bits — and a buffer that is no such
//! numeral falls back to the value the field had before.

use vstd::prelude::*;
use vstd::arithmetic::div_mod::lemma_fundamental_div_mod;

verus! {

/// Whether `c` is a decimal digit character.
pub open spec fn spec_is_digit(c: char) -> bool {
    48 <= c as int <= 57
}

/// The value of a digit character.
pub open spec fn spec_digit(c: char) -> int {
    c as int - 48
}

/// Whether every character of `s` is a decimal digit.
pub open spec fn spec_all_digits(s: Seq<char>) -> bool {
    forall|i: int| 0 <= i < s.len() ==> spec_is_digit(s[i])
}

/// The value of a digit string, read most significant first.
pub open spec fn spec_digits_value(s: Seq<char>) -> int
    decreases s.len(),
{
    if s.len() == 0 {
        0
    } else {
        spec_digits_value(s.drop_last()) * 10 + spec_digit(s.last())
    }
}

/// The numeral with an optional leading `+` stripped.
pub open spec fn spec_numeral_body(s: Seq<char>) -> Seq<char> {
    if s.len() > 0 && s[0] == '+' {
        s.subrange(1, s.len() as int)
    } else {
        s
    }
}

/// The value a text buffer parses to: an optional `+`, then at least one
/// digit, with a value of at most `u32::MAX`; anything else is `None`.
pub open spec fn spec_parse_u32(s: Seq<char>) -> Option<u32> {
    let b = spec_numeral_body(s);
    if b.len() > 0 && spec_all_digits(b) && spec_digits_value(b) <= u32::MAX {
        Some(spec_digits_value(b) as u32)
    } else {
        None
    }
}

/// The value a numeric field takes after its buffer is read: the parsed
/// value, or `fallback` where the buffer is no numeral.
pub open spec fn spec_parse_u32_or(s: Seq<char>, fallback: u32) -> u32 {
    match spec_parse_u32(s) {
        Some(v) => v,
        None => fallback,
    }
}

/// A digit string's value is never negative.
proof fn lemma_digits_value_nonneg(s: Seq<char>)
    requires
        spec_all_digits(s),
    ensures
        spec_digits_value(s) >= 0,
    decreases s.len(),
{
    if s.len() > 0 {
        lemma_digits_value_nonneg(s.drop_last());
    }
}

/// A digit string is worth at least any of its prefixes.
proof fn lemma_digits_value_prefix_le(s: Seq<char>, i: int)
    requires
        spec_all_digits(s),
        0 <= i <= s.len(),
    ensures
        spec_digits_value(s.take(i)) <= spec_digits_value(s),
    decreases s.len(),
{
    if i < s.len() {
        let shorter = s.drop_last();
        assert(shorter.take(i) =~= s.take(i));
        lemma_digits_value_prefix_le(shorter, i);
        lemma_digits_value_nonneg(shorter);
    } else {
        assert(s.take(i) =~= s);
    }
}

/// Parses a text buffer as an unsigned decimal numeral.
pub fn parse_u32(s: &str) -> (r: Option<u32>)
    ensures
        r == spec_parse_u32(s@),
{
    let n = s.unicode_len();
    let start: usize = if n > 0 && s.get_char(0) == '+' {
        1
    } else {
        0
    };
    let ghost body = spec_numeral_body(s@);
    proof {
        assert(body =~= s@.subrange(start as int, n as int));
    }
    if n == start {
        return None;
    }
    let mut acc: u32 = 0;
    let mut i: usize = start;
    while i < n
        invariant
            n == s@.len(),
            start <= i <= n,
            body == spec_numeral_body(s@),
            body =~= s@.subrange(start as int, n as int),
            spec_all_digits(body.take(i - start)),
            acc == spec_digits_value(body.take(i - start)),
        decreases n - i,
    {
        let c = s.get_char(i);
        let cv = c as u32;
        if cv < 48 || cv > 57 {
            proof {
                assert(body[i - start] == c);
            }
            return None;
        }
        let d: u32 = cv - 48;
        proof {
            assert(body.take(i + 1 - start).drop_last() =~= body.take(i - start));
            assert(body.take(i + 1 - start).last() == c);
        }
        if acc > 429496729 || (acc == 429496729 && d > 5) {
            proof {
                if spec_all_digits(body) {
                    lemma_digits_value_prefix_le(body, i + 1 - start);
                }
            }
            return None;
        }
        acc = acc * 10 + d;
        i = i + 1;
    }
    proof {
        assert(body.take(n - start) =~= body);
    }
    Some(acc)
}

/// Reads a text buffer as a numeral, falling back to the field's prior
/// value where the buffer is no numeral.
pub fn parse_u32_or(s: &str, fallback: u32) -> (r: u32)
    ensures
        r == spec_parse_u32_or(s@, fallback),
{
    match parse_u32(s) {
        Some(v) => v,
        None => fallback,
    }
}

/// The digit character of a value in 0..=9.
pub open spec fn spec_char_of_digit(d: int) -> char {
    if d == 0 {
        '0'
    } else if d == 1 {
        '1'
    } else if d == 2 {
        '2'
    } else if d == 3 {
        '3'
    } else if d == 4 {
        '4'
    } else if d == 5 {
        '5'
    } else if d == 6 {
        '6'
    } else if d == 7 {
        '7'
    } else if d == 8 {
        '8'
    } else {
        '9'
    }
}

/// The decimal rendering of a value: its digits, most significant first,
/// with no sign and no leading zero (a lone `0` for zero).
pub open spec fn spec_u32_digits(v: int) -> Seq<char>
    decreases v,
{
    if v < 10 {
        seq![spec_char_of_digit(v)]
    } else {
        spec_u32_digits(v / 10) + seq![spec_char_of_digit(v % 10)]
    }
}

/// Renders a value as a decimal numeral.
pub fn u32_to_string(v: u32) -> (r: String)
    ensures
        r@ == spec_u32_digits(v as int),
    decreases v,
{
    proof {
        reveal_strlit("0");
        reveal_strlit("1");
        reveal_strlit("2");
        reveal_strlit("3");
        reveal_strlit("4");
        reveal_strlit("5");
        reveal_strlit("6");
        reveal_strlit("7");
        reveal_strlit("8");
        reveal_strlit("9");
    }
    let d = v % 10;
    let ds: &str = if d == 0 {
        "0"
    } else if d == 1 {
        "1"
    } else if d == 2 {
        "2"
    } else if d == 3 {
        "3"
    } else if d == 4 {
        "4"
    } else if d == 5 {
        "5"
    } else if d == 6 {
        "6"
    } else if d == 7 {
        "7"
    } else if d == 8 {
        "8"
    } else {
        "9"
    };
    proof {
        assert(ds@ =~= seq![spec_char_of_digit(v as int % 10)]);
    }
    if v < 10 {
        let r = String::from_str(ds);
        proof {
            assert(r@ =~= spec_u32_digits(v as int));
        }
        r
    } else {
        let prefix = u32_to_string(v / 10);
        let r = prefix.concat(ds);
        proof {
            assert(r@ =~= spec_u32_digits(v as int));
        }
        r
    }
}

/// Every character of a decimal rendering is a digit, and its value is
/// the value it was rendered from.
proof fn lemma_u32_digits_value(v: int)
    requires
        0 <= v,
    ensures
        spec_u32_digits(v).len() >= 1,
        spec_all_digits(spec_u32_digits(v)),
        spec_digits_value(spec_u32_digits(v)) == v,
    decreases v,
{
    let s = spec_u32_digits(v);
    if v < 10 {
        assert(s.drop_last() =~= Seq::<char>::empty());
        assert(s.last() == spec_char_of_digit(v));
        assert(spec_digits_value(s) == spec_digits_value(s.drop_last()) * 10 + spec_digit(s.last()));
        assert(spec_digits_value(s.drop_last()) == 0);
        assert(spec_digit(spec_char_of_digit(v)) == v);
    } else {
        lemma_u32_digits_value(v / 10);
        let prefix = spec_u32_digits(v / 10);
        assert(s.drop_last() =~= prefix);
        assert(s.last() == spec_char_of_digit(v % 10));
        assert(spec_digit(spec_char_of_digit(v % 10)) == v % 10);
        lemma_fundamental_div_mod(v, 10);
    }
}

/// Rendering a value and parsing the rendering gives the value back.
pub proof fn lemma_numeral_round_trip(v: u32)
    ensures
        spec_parse_u32(spec_u32_digits(v as int)) == Some(v),
{
    let s = spec_u32_digits(v as int);
    lemma_u32_digits_value(v as int);
    assert(spec_is_digit(s[0]));
    assert(s[0] != '+');
    assert(spec_numeral_body(s) == s);
}

} // verus!
