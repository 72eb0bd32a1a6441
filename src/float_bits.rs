//! Single-precision floating-point values carried as their IEEE-754 bit
//! patterns, with the comparisons the control logic needs.
use vstd::prelude::*;

verus! {

/// The sign bit of a single-precision bit pattern.
pub const SIGN_BIT: u32 = 0x8000_0000;

/// The bit pattern of positive infinity; every larger magnitude is a NaN.
pub const INFINITY_BITS: u32 = 0x7f80_0000;

/// Whether the bit pattern has its sign bit set.
pub open spec fn is_signed(b: u32) -> bool {
    b >= SIGN_BIT
}

/// The bit pattern with its sign bit cleared.
pub open spec fn magnitude(b: u32) -> u32 {
    if is_signed(b) {
        (b - SIGN_BIT) as u32
    } else {
        b
    }
}

/// Whether the bit pattern encodes a NaN.
pub open spec fn is_nan(b: u32) -> bool {
    magnitude(b) > INFINITY_BITS
}

/// An integer that orders non-NaN patterns as the numbers they encode:
/// magnitudes grow with their bit patterns, and both zeros map to 0.
pub open spec fn order_key(b: u32) -> int {
    if is_signed(b) {
        -(magnitude(b) as int)
    } else {
        b as int
    }
}

/// `a < b` on the encoded numbers; false when either is a NaN.
pub open spec fn less_than(a: u32, b: u32) -> bool {
    !is_nan(a) && !is_nan(b) && order_key(a) < order_key(b)
}

/// `a <= b` on the encoded numbers; false when either is a NaN.
pub open spec fn less_equal(a: u32, b: u32) -> bool {
    !is_nan(a) && !is_nan(b) && order_key(a) <= order_key(b)
}

/// Absolute value: the same number with its sign bit cleared.
pub fn abs_bits(b: u32) -> (r: u32)
    ensures
        r == magnitude(b),
        !is_signed(r),
        is_nan(r) == is_nan(b),
{
    if b >= SIGN_BIT {
        b - SIGN_BIT
    } else {
        b
    }
}

/// Whether the pattern encodes a NaN.
pub fn nan_bits(b: u32) -> (r: bool)
    ensures
        r == is_nan(b),
{
    abs_bits(b) > INFINITY_BITS
}

fn key_of(b: u32) -> (r: i64)
    ensures
        r as int == order_key(b),
{
    if b >= SIGN_BIT {
        -((b - SIGN_BIT) as i64)
    } else {
        b as i64
    }
}

/// Floating-point `a < b` on two bit patterns.
pub fn lt_bits(a: u32, b: u32) -> (r: bool)
    ensures
        r == less_than(a, b),
{
    !nan_bits(a) && !nan_bits(b) && key_of(a) < key_of(b)
}

/// Floating-point `a <= b` on two bit patterns.
pub fn le_bits(a: u32, b: u32) -> (r: bool)
    ensures
        r == less_equal(a, b),
{
    !nan_bits(a) && !nan_bits(b) && key_of(a) <= key_of(b)
}

/// On patterns without a sign bit, the numeric order of two non-NaN values is
/// the order of their bit patterns.
pub proof fn lemma_unsigned_order(a: u32, b: u32)
    requires
        !is_signed(a),
        !is_signed(b),
        !is_nan(a),
        !is_nan(b),
    ensures
        less_than(a, b) == (a < b),
        less_equal(a, b) == (a <= b),
{
}

} // verus!
