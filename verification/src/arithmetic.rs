//! Sums, differences and quotients of binary32 numbers.
//!
//! The numbers are bit patterns here as everywhere. The arithmetic itself is
//! done in software by the `softfloat` crate and is taken on trust: each
//! result has a name, and the three functions below are believed to return
//! what their name stands for. Everything the session decides from such a
//! result is decided by a function that takes the result as an argument.

use vstd::prelude::*;

verus! {

/// The pattern of six.
pub const SIX: u32 = 0x40c0_0000;

/// The pattern of two.
pub const TWO: u32 = 0x4000_0000;

/// `a + b`, rounded to the nearest binary32 number.
pub uninterp spec fn sum(a: u32, b: u32) -> u32;

/// `a - b`, rounded to the nearest binary32 number.
pub uninterp spec fn difference(a: u32, b: u32) -> u32;

/// `a / b`, rounded to the nearest binary32 number.
pub uninterp spec fn quotient(a: u32, b: u32) -> u32;

/// Calls `softfloat::F32::add` on the numbers with the patterns `a` and `b`.
/// Believed: the pattern returned depends on `a` and `b` alone, and is the
/// one named [`sum`].
#[verifier::external_body]
pub(crate) fn add(a: u32, b: u32) -> (r: u32)
    ensures
        r == sum(a, b),
{
    softfloat::F32::from_bits(a).add(softfloat::F32::from_bits(b)).to_bits()
}

/// Calls `softfloat::F32::sub` on the numbers with the patterns `a` and `b`.
/// Believed: the pattern returned depends on `a` and `b` alone, and is the
/// one named [`difference`].
#[verifier::external_body]
pub(crate) fn subtract(a: u32, b: u32) -> (r: u32)
    ensures
        r == difference(a, b),
{
    softfloat::F32::from_bits(a).sub(softfloat::F32::from_bits(b)).to_bits()
}

/// Calls `softfloat::F32::div` on the numbers with the patterns `a` and `b`.
/// Believed: the pattern returned depends on `a` and `b` alone, and is the
/// one named [`quotient`].
#[verifier::external_body]
pub(crate) fn divide(a: u32, b: u32) -> (r: u32)
    ensures
        r == quotient(a, b),
{
    softfloat::F32::from_bits(a).div(softfloat::F32::from_bits(b)).to_bits()
}

} // verus!
