//! Ordering of IEEE-754 binary32 numbers, decided on their bit patterns.
//!
//! Every number that passes through a session is carried as the 32 bits of its
//! binary32 encoding. The encoding is sign-and-magnitude, so the order of two
//! numbers can be read off their bit patterns with integer comparisons alone.
//! Nothing in this module rounds: sums, differences and quotients are formed
//! by the caller and handed in as bit patterns.

use vstd::prelude::*;

verus! {

/// The pattern with only the sign bit set. Every pattern at or above it carries a minus sign.
pub const SIGN: u32 = 0x8000_0000;

/// The pattern of positive infinity. A pattern of larger magnitude is not a number.
pub const INFINITY: u32 = 0x7f80_0000;

/// The pattern of 2^-23, the distance from one to the next larger number.
pub const EPSILON: u32 = 0x3400_0000;

/// Whether the sign bit of `x` is set.
pub open spec fn has_sign(x: u32) -> bool {
    x >= SIGN
}

/// The pattern `x` with its sign bit cleared: the pattern of the absolute value.
pub open spec fn magnitude(x: u32) -> u32 {
    if x >= SIGN {
        (x - SIGN) as u32
    } else {
        x
    }
}

/// Whether `x` encodes no number at all.
pub open spec fn is_nan(x: u32) -> bool {
    magnitude(x) > INFINITY
}

/// The position of `x` on the number line, counted in patterns away from zero.
/// Both zeros stand at position zero. Meaningful only when `x` is a number.
pub open spec fn rank(x: u32) -> int {
    if has_sign(x) {
        -(magnitude(x) as int)
    } else {
        magnitude(x) as int
    }
}

/// `a < b` as numbers. False as soon as either is not a number.
pub open spec fn less(a: u32, b: u32) -> bool {
    !is_nan(a) && !is_nan(b) && rank(a) < rank(b)
}

/// `a >= b` as numbers. False as soon as either is not a number.
pub open spec fn at_least(a: u32, b: u32) -> bool {
    !is_nan(a) && !is_nan(b) && rank(a) >= rank(b)
}

/// `a > b` as numbers. False as soon as either is not a number.
pub open spec fn more(a: u32, b: u32) -> bool {
    less(b, a)
}

/// Whether `x` is a number with a minus sign, negative zero included.
pub open spec fn is_negative(x: u32) -> bool {
    !is_nan(x) && has_sign(x)
}

/// Whether `x` is one of the two zeros.
pub open spec fn is_zero(x: u32) -> bool {
    magnitude(x) == 0
}

/// The pattern of the absolute value of `x`.
pub fn abs(x: u32) -> (r: u32)
    ensures
        r == magnitude(x),
        r < SIGN,
{
    if x >= SIGN {
        x - SIGN
    } else {
        x
    }
}

/// Tells whether `x` encodes no number.
pub fn nan(x: u32) -> (r: bool)
    ensures
        r == is_nan(x),
{
    abs(x) > INFINITY
}

/// Position of `x` on the number line, in patterns away from zero.
pub fn rank_of(x: u32) -> (r: i64)
    ensures
        r == rank(x),
{
    let m: u32 = abs(x);
    if x >= SIGN {
        -(m as i64)
    } else {
        m as i64
    }
}

/// Decides `a < b`.
pub fn lt(a: u32, b: u32) -> (r: bool)
    ensures
        r == less(a, b),
{
    !nan(a) && !nan(b) && rank_of(a) < rank_of(b)
}

/// Decides `a >= b`.
pub fn ge(a: u32, b: u32) -> (r: bool)
    ensures
        r == at_least(a, b),
{
    !nan(a) && !nan(b) && rank_of(a) >= rank_of(b)
}

/// Decides `a > b`.
pub fn gt(a: u32, b: u32) -> (r: bool)
    ensures
        r == more(a, b),
{
    lt(b, a)
}

/// Decides whether `x` is a number with a minus sign.
pub fn negative(x: u32) -> (r: bool)
    ensures
        r == is_negative(x),
{
    !nan(x) && x >= SIGN
}

/// Decides whether `x` is positive or negative zero.
pub fn zero(x: u32) -> (r: bool)
    ensures
        r == is_zero(x),
{
    abs(x) == 0
}

/// Of two numbers exactly one of `a < b` and `a >= b` holds.
pub proof fn lemma_order_is_total(a: u32, b: u32)
    requires
        !is_nan(a),
        !is_nan(b),
    ensures
        less(a, b) != at_least(a, b),
{
}

} // verus!
