//! Number literals.
use crate::ast::{ConfigValue, ConfigValueView};
use crate::number::Number;
use crate::parser::{in_range, seen, soft, soft_at, within, Parsed, ParsedView, Trouble};
use crate::source::Source;
use crate::text::text_between;
use vstd::prelude::*;

verus! {

/// Whether the character is a decimal digit.
pub open spec fn is_digit(c: char) -> bool {
    '0' as int <= c as int <= '9' as int
}

pub fn digit(c: char) -> (r: bool)
    ensures
        r == is_digit(c),
{
    let n: u32 = crate::text::code_point(c);
    0x30 <= n && n <= 0x39
}

/// The first index at or after `from` and before `end` that holds no
/// digit; `end` if there is none.
pub open spec fn digits_end(s: Seq<char>, from: int, end: int) -> int
    decreases end - from,
{
    if 0 <= from < end <= s.len() && is_digit(s[from]) {
        digits_end(s, from + 1, end)
    } else {
        from
    }
}

fn skip_digits(chars: &Vec<char>, pos: usize, end: usize) -> (r: usize)
    requires
        pos <= end <= chars.len(),
    ensures
        r == digits_end(chars@, pos as int, end as int),
        pos <= r <= end,
{
    let mut p: usize = pos;
    while p < end && digit(chars[p])
        invariant
            pos <= p <= end <= chars.len(),
            digits_end(chars@, pos as int, end as int) == digits_end(
                chars@,
                p as int,
                end as int,
            ),
        decreases end - p,
    {
        p = p + 1;
    }
    p
}

/// The number that the digits `from..to` stand for, on top of `acc` times
/// ten for each digit.
pub open spec fn digits_value(s: Seq<char>, from: int, to: int, acc: int) -> int
    decreases to - from,
{
    if from < 0 || from >= to || to > s.len() {
        acc
    } else {
        digits_value(s, from + 1, to, acc * 10 + (s[from] as int - '0' as int))
    }
}

/// The value of the digits `from..to`, if it is at most `limit`.
fn read_digits(chars: &Vec<char>, from: usize, to: usize, limit: u64) -> (r: Option<u64>)
    requires
        from <= to <= chars.len(),
        forall|i: int| from <= i < to ==> is_digit(chars@[i]),
        limit <= 0x8000_0000_0000_0000,
    ensures
        match r {
            Some(v) => v == digits_value(chars@, from as int, to as int, 0) && v <= limit,
            None => digits_value(chars@, from as int, to as int, 0) > limit,
        },
{
    let mut acc: u64 = 0;
    let mut i: usize = from;
    while i < to
        invariant
            from <= i <= to <= chars.len(),
            forall|k: int| from <= k < to ==> is_digit(chars@[k]),
            acc <= limit <= 0x8000_0000_0000_0000,
            digits_value(chars@, from as int, to as int, 0) == digits_value(
                chars@,
                i as int,
                to as int,
                acc as int,
            ),
        decreases to - i,
    {
        let d: u64 = (crate::text::code_point(chars[i]) - 0x30) as u64;
        let next: u128 = (acc as u128) * 10 + (d as u128);
        if next > limit as u128 {
            proof {
                lemma_digits_grow(chars@, i + 1, to as int, next as int);
            }
            return None;
        }
        acc = next as u64;
        i = i + 1;
    }
    Some(acc)
}

/// More digits never make a number smaller.
pub proof fn lemma_digits_grow(s: Seq<char>, from: int, to: int, acc: int)
    requires
        0 <= from <= to <= s.len(),
        0 <= acc,
        forall|i: int| from <= i < to ==> is_digit(s[i]),
    ensures
        digits_value(s, from, to, acc) >= acc,
    decreases to - from,
{
    if from < to {
        lemma_digits_grow(s, from + 1, to, acc * 10 + (s[from] as int - '0' as int));
    }
}

/// Whether the characters `from..to` are all the digit zero.
fn all_zero(chars: &Vec<char>, from: usize, to: usize) -> (r: bool)
    requires
        from <= to <= chars.len(),
    ensures
        r == forall|i: int| from <= i < to ==> chars@[i] == '0',
{
    let mut i: usize = from;
    while i < to
        invariant
            from <= i <= to <= chars.len(),
            forall|k: int| from <= k < i ==> chars@[k] == '0',
        decreases to - i,
    {
        if chars[i] != '0' {
            return false;
        }
        i = i + 1;
    }
    true
}

/// Whether the character is a sign.
pub open spec fn is_sign(c: char) -> bool {
    c == '-' || c == '+'
}

/// Whether the characters `from..to` are all the digit zero.
pub open spec fn zeros(s: Seq<char>, from: int, to: int) -> bool {
    forall|i: int| from <= i < to ==> s[i] == '0'
}

/// What a number is: a sign if one likes, digits, and then, if one likes,
/// a fraction and an exponent. Digits have to stand before the full stop
/// of the fraction or behind it. A number without a fraction and an
/// exponent, or with a fraction of nothing but zeros, is an integer where
/// it fits into 64 bits. Every other number is left as it is written, for
/// the host to read.
#[verifier::opaque]
pub open spec fn number_spec(s: Seq<char>, pos: int, end: int) -> ParsedView<ConfigValueView> {
    let signed = 0 <= pos < end <= s.len() && is_sign(s[pos]);
    let negative = signed && s[pos] == '-';
    let whole_start = if signed {
        pos + 1
    } else {
        pos
    };
    let whole_end = digits_end(s, whole_start, end);
    let dot = 0 <= whole_end < end <= s.len() && s[whole_end] == '.';
    let fraction_end = if dot {
        digits_end(s, whole_end + 1, end)
    } else {
        whole_end
    };
    let has_fraction = dot && (whole_end > whole_start || fraction_end > whole_end + 1);
    let mantissa_end = if has_fraction {
        fraction_end
    } else {
        whole_end
    };
    if whole_end == whole_start && !has_fraction {
        Err(soft_at(pos))
    } else {
        let marked = 0 <= mantissa_end < end <= s.len() && (s[mantissa_end] == 'e'
            || s[mantissa_end] == 'E');
        let exponent_start = if marked && mantissa_end + 1 < end && is_sign(s[mantissa_end + 1]) {
            mantissa_end + 2
        } else {
            mantissa_end + 1
        };
        let exponent_end = if marked {
            digits_end(s, exponent_start, end)
        } else {
            mantissa_end
        };
        let has_exponent = marked && exponent_end > exponent_start;
        let p = if has_exponent {
            exponent_end
        } else {
            mantissa_end
        };
        let magnitude = digits_value(s, whole_start, whole_end, 0);
        let integral = !has_exponent && whole_end > whole_start && (has_fraction ==> zeros(
            s,
            whole_end + 1,
            fraction_end,
        ));
        if integral && !negative && magnitude <= 0x7fff_ffff_ffff_ffff {
            Ok((ConfigValueView::Number(Number::Int(magnitude as i64)), p))
        } else if integral && negative && magnitude <= 0x8000_0000_0000_0000 {
            Ok((ConfigValueView::Number(Number::Int((-magnitude) as i64)), p))
        } else {
            Ok((ConfigValueView::Float(s.subrange(pos, p)), p))
        }
    }
}

pub fn number(src: &Source, pos: usize, end: usize) -> (r: Parsed<ConfigValue>)
    requires
        in_range(src, pos, end),
    ensures
        within(r, pos, end),
        seen(r) == number_spec(src.text(), pos as int, end as int),
        r matches Err(stop) ==> stop.trouble == Trouble::Soft,
{
    reveal(number_spec);
    let chars = src.chars();
    let mut p: usize = pos;
    let mut negative = false;
    if p < end && (chars[p] == '-' || chars[p] == '+') {
        negative = chars[p] == '-';
        p = p + 1;
    }
    let whole_start: usize = p;
    let whole_end: usize = skip_digits(chars, p, end);
    p = whole_end;
    let mut fraction_start: usize = p;
    let mut fraction_end: usize = p;
    let mut has_fraction = false;
    if p < end && chars[p] == '.' {
        let q = skip_digits(chars, p + 1, end);
        if whole_end > whole_start || q > p + 1 {
            has_fraction = true;
            fraction_start = p + 1;
            fraction_end = q;
            p = q;
        }
    }
    if whole_end == whole_start && !has_fraction {
        return Err(soft(pos));
    }
    let mut has_exponent = false;
    if p < end && (chars[p] == 'e' || chars[p] == 'E') {
        let mut q: usize = p + 1;
        if q < end && (chars[q] == '-' || chars[q] == '+') {
            q = q + 1;
        }
        let digits = skip_digits(chars, q, end);
        if digits > q {
            has_exponent = true;
            p = digits;
        }
    }
    if !has_exponent && whole_end > whole_start && all_zero(chars, fraction_start, fraction_end) {
        proof {
            lemma_all_digits(chars@, whole_start as int, end as int);
        }
        let limit: u64 = if negative {
            0x8000_0000_0000_0000
        } else {
            0x7fff_ffff_ffff_ffff
        };
        match read_digits(chars, whole_start, whole_end, limit) {
            Some(v) => {
                let value: i64 = if negative {
                    if v == 0x8000_0000_0000_0000 {
                        i64::MIN
                    } else {
                        -(v as i64)
                    }
                } else {
                    v as i64
                };
                return Ok((ConfigValue::Number(Number::Int(value)), p));
            },
            None => {},
        }
    }
    Ok((ConfigValue::Float(text_between(chars, pos, p)), p))
}

/// Everything before the end of a run of digits is a digit.
pub proof fn lemma_all_digits(s: Seq<char>, from: int, end: int)
    requires
        0 <= from <= end <= s.len(),
    ensures
        from <= digits_end(s, from, end) <= end,
        forall|i: int| from <= i < digits_end(s, from, end) ==> is_digit(s[i]),
    decreases end - from,
{
    if from < end && is_digit(s[from]) {
        lemma_all_digits(s, from + 1, end);
    }
}

} // verus!
