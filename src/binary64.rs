//! IEEE-754 binary64 numbers carried as their bit patterns.
//!
//! A sample is the `u64` that `f64::to_bits` gives. The order used by the
//! edge stages is the one of the floating-point comparison operators: NaN is
//! unordered, `-0.0` equals `+0.0`, and every other value is ordered by sign,
//! then by the magnitude of its bits.

use vstd::prelude::*;

verus! {

/// The sign bit of a binary64 pattern.
pub const SIGN_BIT: u64 = 0x8000_0000_0000_0000;

/// The pattern of positive infinity; larger magnitudes are NaN.
pub const INFINITY_BITS: u64 = 0x7ff0_0000_0000_0000;

/// The pattern of `0.25`.
pub const QUARTER_BITS: u64 = 0x3fd0_0000_0000_0000;

/// Whether the sign bit is set.
pub open spec fn is_negative(b: u64) -> bool {
    b >= SIGN_BIT
}

/// The pattern with its sign bit cleared.
pub open spec fn abs_bits(b: u64) -> int {
    if is_negative(b) {
        b - SIGN_BIT
    } else {
        b as int
    }
}

/// Whether the pattern is a NaN.
pub open spec fn is_nan(b: u64) -> bool {
    abs_bits(b) > INFINITY_BITS
}

/// The position of a non-NaN value on the number line: monotone in the value,
/// and 0 for both zeros.
pub open spec fn rank(b: u64) -> int {
    if is_negative(b) {
        -abs_bits(b)
    } else {
        abs_bits(b)
    }
}

/// `a < b` as the floating-point operator decides it.
pub open spec fn less(a: u64, b: u64) -> bool {
    !is_nan(a) && !is_nan(b) && rank(a) < rank(b)
}

/// `a <= b` as the floating-point operator decides it.
pub open spec fn at_most(a: u64, b: u64) -> bool {
    !is_nan(a) && !is_nan(b) && rank(a) <= rank(b)
}

/// Whether the value is strictly greater than zero.
pub open spec fn is_positive(b: u64) -> bool {
    less(0, b)
}

/// The unit step that a gradient component selects along its axis: its sign
/// where its absolute value exceeds `0.25`, and 0 otherwise (NaN included).
pub open spec fn axis_step(b: u64) -> int {
    if !is_nan(b) && abs_bits(b) > QUARTER_BITS {
        if is_negative(b) {
            -1
        } else {
            1
        }
    } else {
        0
    }
}

/// The magnitude part of the pattern, computed.
fn magnitude_bits(b: u64) -> (r: u64)
    ensures
        r == abs_bits(b),
{
    if b >= SIGN_BIT {
        b - SIGN_BIT
    } else {
        b
    }
}

/// The rank of a pattern, computed.
fn rank_of(b: u64) -> (r: i128)
    ensures
        r == rank(b),
{
    let m = magnitude_bits(b) as i128;
    if b >= SIGN_BIT {
        -m
    } else {
        m
    }
}

/// Whether a pattern is a NaN, computed.
pub fn nan(b: u64) -> (r: bool)
    ensures
        r == is_nan(b),
{
    magnitude_bits(b) > INFINITY_BITS
}

/// Whether a pattern is `+0.0` or `-0.0`.
pub fn is_zero(b: u64) -> (r: bool)
    ensures
        r == (rank(b) == 0),
{
    magnitude_bits(b) == 0
}

/// The floating-point `a < b` on two patterns.
pub fn lt(a: u64, b: u64) -> (r: bool)
    ensures
        r == less(a, b),
{
    !nan(a) && !nan(b) && rank_of(a) < rank_of(b)
}

/// The floating-point `a <= b` on two patterns.
pub fn le(a: u64, b: u64) -> (r: bool)
    ensures
        r == at_most(a, b),
{
    !nan(a) && !nan(b) && rank_of(a) <= rank_of(b)
}

/// The step that a gradient component selects, computed.
pub fn step(b: u64) -> (r: i8)
    ensures
        r == axis_step(b),
{
    if !nan(b) && magnitude_bits(b) > QUARTER_BITS {
        if b >= SIGN_BIT {
            -1
        } else {
            1
        }
    } else {
        0
    }
}

} // verus!
