//! Numbers: 64-bit integers, and 64-bit floating-point numbers held as
//! their IEEE 754 bit patterns.
use vstd::prelude::*;

verus! {

/// A number of the language. A floating-point number is held as the 64 bits
/// of its IEEE 754 binary64 form: the library compares such numbers and
/// carries them, and leaves arithmetic on them to its host.
#[derive(Clone, Copy, Debug)]
pub enum Number {
    Int(i64),
    Float(u64),
}

/// The bit pattern without its sign bit.
pub open spec fn magnitude(bits: u64) -> int {
    bits as int % 0x8000_0000_0000_0000
}

/// Whether the sign bit is set.
pub open spec fn is_negative(bits: u64) -> bool {
    bits >= 0x8000_0000_0000_0000
}

/// Whether the bit pattern is a NaN: all exponent bits set, and a fraction
/// that is not zero.
pub open spec fn is_nan(bits: u64) -> bool {
    magnitude(bits) > 0x7ff0_0000_0000_0000
}

/// An integer that orders the bit patterns that are no NaN as IEEE 754
/// orders the numbers they stand for; the two zeros share one rank.
pub open spec fn float_rank(bits: u64) -> int {
    if is_negative(bits) {
        -magnitude(bits)
    } else {
        magnitude(bits)
    }
}

/// IEEE 754 equality: a NaN equals nothing, the two zeros are equal.
pub open spec fn float_equal(a: u64, b: u64) -> bool {
    !is_nan(a) && !is_nan(b) && float_rank(a) == float_rank(b)
}

/// How two floating-point numbers stand in the IEEE 754 order: -1, 0 or 1,
/// and `None` where one of them is a NaN.
pub open spec fn float_order(a: u64, b: u64) -> Option<int> {
    if is_nan(a) || is_nan(b) {
        None
    } else if float_rank(a) < float_rank(b) {
        Some(-1)
    } else if float_rank(a) > float_rank(b) {
        Some(1)
    } else {
        Some(0)
    }
}

/// Equality of numbers: integers by value, floating-point numbers as IEEE
/// 754 has it, and an integer never equals a floating-point number.
pub open spec fn number_equal(a: Number, b: Number) -> bool {
    match (a, b) {
        (Number::Int(x), Number::Int(y)) => x == y,
        (Number::Float(x), Number::Float(y)) => float_equal(x, y),
        _ => false,
    }
}

/// How two numbers of the same kind stand to each other; `None` for a NaN,
/// and for an integer beside a floating-point number.
pub open spec fn number_order(a: Number, b: Number) -> Option<int> {
    match (a, b) {
        (Number::Int(x), Number::Int(y)) => if x < y {
            Some(-1)
        } else if x > y {
            Some(1)
        } else {
            Some(0)
        },
        (Number::Float(x), Number::Float(y)) => float_order(x, y),
        _ => None,
    }
}

fn rank_of(bits: u64) -> (r: i128)
    ensures
        r == float_rank(bits),
{
    if bits >= 0x8000_0000_0000_0000 {
        let m: u64 = bits - 0x8000_0000_0000_0000;
        let r: i128 = -(m as i128);
        r
    } else {
        bits as i128
    }
}

fn nan(bits: u64) -> (r: bool)
    ensures
        r == is_nan(bits),
{
    let m: u64 = if bits >= 0x8000_0000_0000_0000 {
        bits - 0x8000_0000_0000_0000
    } else {
        bits
    };
    m > 0x7ff0_0000_0000_0000
}

impl Number {
    /// The number as an index: an integer that is not negative.
    pub fn as_usize(&self) -> (r: Option<usize>)
        ensures
            r == match *self {
                Number::Int(x) => if 0 <= x <= usize::MAX {
                    Some(x as usize)
                } else {
                    None
                },
                Number::Float(_) => None,
            },
    {
        match self {
            Number::Int(x) => {
                if *x >= 0 && (*x as u64) <= usize::MAX as u64 {
                    Some(*x as usize)
                } else {
                    None
                }
            },
            Number::Float(_) => None,
        }
    }

    /// The number of elements of a collection, as a number of the language.
    pub fn from_len(n: usize) -> (r: Number)
        ensures
            r == Number::Int(if n <= i64::MAX { n as i64 } else { i64::MAX }),
    {
        if n as u64 <= i64::MAX as u64 {
            Number::Int(n as i64)
        } else {
            Number::Int(i64::MAX)
        }
    }

    /// Whether two numbers are equal.
    pub fn same(&self, other: &Number) -> (r: bool)
        ensures
            r == number_equal(*self, *other),
    {
        match (self, other) {
            (Number::Int(x), Number::Int(y)) => *x == *y,
            (Number::Float(x), Number::Float(y)) => !nan(*x) && !nan(*y) && rank_of(*x) == rank_of(
                *y,
            ),
            _ => false,
        }
    }

    /// How two numbers stand to each other: -1, 0 or 1.
    pub fn order(&self, other: &Number) -> (r: Option<i8>)
        ensures
            match r {
                Some(o) => number_order(*self, *other) == Some(o as int),
                None => number_order(*self, *other) is None,
            },
    {
        match (self, other) {
            (Number::Int(x), Number::Int(y)) => {
                if *x < *y {
                    Some(-1)
                } else if *x > *y {
                    Some(1)
                } else {
                    Some(0)
                }
            },
            (Number::Float(x), Number::Float(y)) => {
                if nan(*x) || nan(*y) {
                    None
                } else {
                    let a = rank_of(*x);
                    let b = rank_of(*y);
                    if a < b {
                        Some(-1)
                    } else if a > b {
                        Some(1)
                    } else {
                        Some(0)
                    }
                }
            },
            _ => None,
        }
    }
}

impl PartialEq for Number {
    fn eq(&self, other: &Number) -> (r: bool) {
        self.same(other)
    }
}

impl vstd::std_specs::cmp::PartialEqSpecImpl for Number {
    open spec fn obeys_eq_spec() -> bool {
        true
    }

    open spec fn eq_spec(&self, other: &Number) -> bool {
        number_equal(*self, *other)
    }
}

} // verus!
