//! Numbers as binary32 bit patterns.
//!
//! A pattern has a sign bit, eight bits of exponent and twenty-three of
//! fraction. With the sign bit clear, patterns up to that of positive
//! infinity are ordered as the numbers they encode; the patterns above it
//! encode no number. Setting the sign bit negates.

use vstd::prelude::*;

verus! {

/// The binary32 bit pattern of 1.0.
pub const UNIT_ONE: u32 = 0x3F80_0000;

/// The binary32 bit pattern of positive infinity. Every larger pattern has
/// the sign bit set or encodes a NaN.
pub const POS_INFINITY: u32 = 0x7F80_0000;

/// The sign bit of a pattern.
pub const SIGN_BIT: u32 = 0x8000_0000;

/// The pattern with the sign bit cleared: that of the absolute value.
pub open spec fn magnitude(bits: u32) -> u32 {
    if bits >= SIGN_BIT {
        (bits - SIGN_BIT) as u32
    } else {
        bits
    }
}

/// Whether the sign bit is set.
pub open spec fn is_negative(bits: u32) -> bool {
    bits >= SIGN_BIT
}

/// Whether `bits` encodes a number in the closed interval from 0 to 1 with
/// the sign bit clear. On such patterns the order of the numbers is the
/// order of the patterns as unsigned integers.
pub open spec fn is_unit(bits: u32) -> bool {
    bits <= UNIT_ONE
}

/// The pattern of the number in the unit interval nearest to the one that
/// `bits` encodes: the pattern itself where it is in range, 1.0 for what is
/// larger (positive infinity included), and positive zero for what is
/// negative (negative zero included) or not a number.
pub open spec fn clamp_unit(bits: u32) -> u32 {
    if bits <= UNIT_ONE {
        bits
    } else if bits <= POS_INFINITY {
        UNIT_ONE
    } else {
        0
    }
}

/// The larger of the number that `bits` encodes and the positive number
/// that `lo` encodes; `lo` where `bits` is not a number.
pub open spec fn at_least(bits: u32, lo: u32) -> u32 {
    if lo <= bits <= POS_INFINITY {
        bits
    } else {
        lo
    }
}

/// Clamps one pattern to the unit interval.
pub fn clamp_to_unit(bits: u32) -> (r: u32)
    ensures
        r == clamp_unit(bits),
        is_unit(r),
{
    if bits <= UNIT_ONE {
        bits
    } else if bits <= POS_INFINITY {
        UNIT_ONE
    } else {
        0
    }
}

/// The larger of two numbers, the second of them positive.
pub fn floor_at(bits: u32, lo: u32) -> (r: u32)
    ensures
        r == at_least(bits, lo),
{
    if lo <= bits && bits <= POS_INFINITY {
        bits
    } else {
        lo
    }
}

/// Whether `bits` encodes a number below zero: the sign is set, and the
/// pattern is neither negative zero nor not a number.
pub open spec fn below_zero(bits: u32) -> bool {
    is_negative(bits) && 0 < magnitude(bits) <= POS_INFINITY
}

/// Whether `bits` encodes a number below zero.
pub fn is_below_zero(bits: u32) -> (b: bool)
    ensures
        b == below_zero(bits),
{
    bits > SIGN_BIT && bits - SIGN_BIT <= POS_INFINITY
}

/// The pattern of the absolute value.
pub fn abs_bits(bits: u32) -> (m: u32)
    ensures
        m == magnitude(bits),
{
    if bits >= SIGN_BIT {
        bits - SIGN_BIT
    } else {
        bits
    }
}

/// Clamping leaves a channel that is in range as it is, and what it yields
/// is always in range.
pub proof fn lemma_clamp_unit(bits: u32)
    ensures
        is_unit(clamp_unit(bits)),
        is_unit(bits) ==> clamp_unit(bits) == bits,
        clamp_unit(clamp_unit(bits)) == clamp_unit(bits),
{
}

} // verus!
