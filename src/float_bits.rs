//! IEEE-754 single-precision values held as their bit patterns.
use vstd::prelude::*;

verus! {

/// Bit pattern of positive infinity; every larger pattern is a NaN or has its
/// sign bit set.
pub const POSITIVE_INFINITY_BITS: u32 = 0x7f80_0000;

/// Bit pattern of `+0.0`.
pub const ZERO_BITS: u32 = 0;

/// Bit pattern of `2.0`.
pub const TWO_BITS: u32 = 0x4000_0000;

/// The sign bit is set.
pub open spec fn sign_set(b: u32) -> bool {
    b >= 0x8000_0000
}

/// The pattern encodes a NaN: all exponent bits set and a non-zero mantissa,
/// whatever the sign.
pub open spec fn is_nan(b: u32) -> bool {
    b % 0x8000_0000 > POSITIVE_INFINITY_BITS
}

/// A number `>= +0.0`: `+0.0`, a positive finite value or `+inf`.
pub open spec fn is_non_negative(b: u32) -> bool {
    !sign_set(b) && !is_nan(b)
}

/// A number below zero, `-0.0` included.
pub open spec fn is_negative(b: u32) -> bool {
    sign_set(b) && !is_nan(b)
}

/// `max(x, 0.0)` with a NaN taken as absent: non-negative numbers are kept,
/// everything else becomes `+0.0`.
pub open spec fn clamp_non_negative_spec(b: u32) -> u32 {
    if is_non_negative(b) {
        b
    } else {
        ZERO_BITS
    }
}

/// Clamps a single-precision value, given by its bits, to be non-negative.
pub fn clamp_non_negative(b: u32) -> (r: u32)
    ensures
        r == clamp_non_negative_spec(b),
        is_non_negative(r),
{
    if b <= POSITIVE_INFINITY_BITS {
        b
    } else {
        ZERO_BITS
    }
}

} // verus!
