//! Unsigned decimal numbers as texts.

use crate::chars::{char_is_digit, is_digit};
use vstd::prelude::*;

verus! {

/// The number that a decimal digit stands for.
pub open spec fn digit_value(c: char) -> nat {
    (c as nat - '0' as nat) as nat
}

/// The decimal digit for a number below ten.
pub open spec fn digit_char(d: nat) -> char {
    (('0' as u8) + (d as u8)) as char
}

/// Every character of `s` is a decimal digit.
pub open spec fn all_digits(s: Seq<char>) -> bool {
    forall|i: int| 0 <= i < s.len() ==> is_digit(#[trigger] s[i])
}

/// The number that a text of decimal digits stands for; 0 for the empty text.
pub open spec fn decimal_value(s: Seq<char>) -> nat
    decreases s.len(),
{
    if s.len() == 0 {
        0
    } else {
        decimal_value(s.drop_last()) * 10 + digit_value(s.last())
    }
}

/// The number that `s` stands for: an optional `+`, then one or more decimal
/// digits whose value is at most `max`. Any other text stands for no number.
pub open spec fn parse_unsigned(s: Seq<char>, max: nat) -> Option<nat> {
    let digits = if s.len() > 0 && s[0] == '+' {
        s.drop_first()
    } else {
        s
    };
    if digits.len() > 0 && all_digits(digits) && decimal_value(digits) <= max {
        Some(decimal_value(digits))
    } else {
        None
    }
}

/// The decimal digits of `n`, without leading zeros.
pub open spec fn decimal_text(n: nat) -> Seq<char>
    decreases n,
{
    if n < 10 {
        seq![digit_char(n)]
    } else {
        decimal_text(n / 10).push(digit_char(n % 10))
    }
}

/// The value of a prefix of a digit text is at most the value of the text.
pub proof fn lemma_decimal_value_prefix(s: Seq<char>, k: int)
    requires
        0 <= k <= s.len(),
    ensures
        decimal_value(s.take(k)) <= decimal_value(s),
    decreases s.len() - k,
{
    if k == s.len() {
        assert(s.take(k) == s);
    } else {
        lemma_decimal_value_prefix(s.drop_last(), k);
        assert(s.drop_last().take(k) == s.take(k));
    }
}

/// The value of the digits of `v`, if they are all digits, there is at least
/// one, and the value is at most `max`.
fn digits_value(v: &Vec<char>, from: usize, max: u64) -> (r: Option<u64>)
    requires
        from <= v.len(),
    ensures
        ({
            let digits = v@.skip(from as int);
            if digits.len() > 0 && all_digits(digits) && decimal_value(digits) <= max {
                r == Some(decimal_value(digits) as u64)
            } else {
                r is None
            }
        }),
{
    let ghost digits = v@.skip(from as int);
    if from == v.len() {
        return None;
    }
    let mut acc: u64 = 0;
    let mut i: usize = from;
    while i < v.len()
        invariant
            from <= i <= v.len(),
            digits == v@.skip(from as int),
            all_digits(digits.take(i - from)),
            acc == decimal_value(digits.take(i - from)),
            acc <= max,
        decreases v.len() - i,
    {
        let c = v[i];
        proof {
            assert(digits[i - from] == c);
            assert(digits.take(i - from + 1).drop_last() == digits.take(i - from));
            lemma_decimal_value_prefix(digits, i - from + 1);
        }
        if !char_is_digit(c) {
            return None;
        }
        let d: u64 = (c as u64) - ('0' as u64);
        if d > max || acc > (max - d) / 10 {
            proof {
                assert(acc * 10 + d > max);
            }
            return None;
        }
        acc = acc * 10 + d;
        proof {
            let next = digits.take(i - from + 1);
            assert forall|j: int| 0 <= j < next.len() implies is_digit(#[trigger] next[j]) by {
                if j < i - from {
                    assert(next[j] == digits.take(i - from)[j]);
                }
            }
        }
        i += 1;
    }
    proof {
        assert(digits.take(i - from) == digits);
    }
    Some(acc)
}

/// Reads an unsigned decimal number of at most `max`.
pub fn parse_bounded(v: &Vec<char>, max: u64) -> (r: Option<u64>)
    ensures
        match r {
            Some(n) => parse_unsigned(v@, max as nat) == Some(n as nat),
            None => parse_unsigned(v@, max as nat) is None,
        },
{
    let from: usize = if v.len() > 0 && v[0] == '+' {
        1
    } else {
        0
    };
    proof {
        assert(v@.skip(0) == v@);
        assert(v@.skip(1) == v@.drop_first());
    }
    digits_value(v, from, max)
}

/// Reads an unsigned decimal number that fits in 64 bits.
pub fn parse_u64(v: &Vec<char>) -> (r: Option<u64>)
    ensures
        match r {
            Some(n) => parse_unsigned(v@, u64::MAX as nat) == Some(n as nat),
            None => parse_unsigned(v@, u64::MAX as nat) is None,
        },
{
    parse_bounded(v, u64::MAX)
}

/// Reads an unsigned decimal number that fits in 32 bits.
pub fn parse_u32(v: &Vec<char>) -> (r: Option<u32>)
    ensures
        match r {
            Some(n) => parse_unsigned(v@, u32::MAX as nat) == Some(n as nat),
            None => parse_unsigned(v@, u32::MAX as nat) is None,
        },
{
    match parse_bounded(v, 0xffff_ffff) {
        Some(n) => Some(n as u32),
        None => None,
    }
}

/// Appends the decimal digits of `n` to `out`.
pub fn push_decimal(out: &mut Vec<char>, n: u64)
    ensures
        final(out)@ == old(out)@ + decimal_text(n as nat),
    decreases n,
{
    if n >= 10 {
        push_decimal(out, n / 10);
    }
    let d: u8 = (n % 10) as u8;
    out.push((('0' as u8) + d) as char);
}

/// The decimal digits of `n`.
pub fn decimal_of(n: u64) -> (r: Vec<char>)
    ensures
        r@ == decimal_text(n as nat),
{
    let mut out: Vec<char> = Vec::new();
    push_decimal(&mut out, n);
    out
}

} // verus!
