//! A bit-pattern model of IEEE 754 binary32 scalars.
//!
//! The builder stores each scalar parameter as the raw 32-bit pattern of a
//! binary32 value: bit 31 is the sign, bits 23 to 30 the exponent, bits 0 to
//! 22 the fraction. The strict `<` order of binary32 is a pure function of
//! the two bit patterns and is written out here: every comparison with a NaN
//! is false, positive and negative zero are equal, and otherwise values are
//! ordered by sign first, then by magnitude, with the magnitude order
//! reversed on the negative side.

use vstd::prelude::*;

verus! {

/// Bit pattern of binary32 zero.
pub const ZERO_BITS: u32 = 0x0000_0000;

/// Bit pattern of binary32 one.
pub const ONE_BITS: u32 = 0x3F80_0000;

/// Bit pattern of binary32 360, the exclusive upper bound of the field of
/// view in degrees.
pub const FULL_TURN_BITS: u32 = 0x43B4_0000;

/// The exponent field is all ones and the fraction is not zero: a NaN.
pub open spec fn spec_is_nan(b: u32) -> bool {
    (b & 0x7F80_0000) == 0x7F80_0000 && (b & 0x007F_FFFF) != 0
}

/// The sign bit is set.
pub open spec fn spec_is_neg(b: u32) -> bool {
    (b & 0x8000_0000) != 0
}

/// The magnitude: the bit pattern with the sign bit cleared. On one side of
/// zero, binary32 values are ordered exactly as their magnitudes are ordered
/// as integers.
pub open spec fn spec_mag(b: u32) -> u32 {
    b & 0x7FFF_FFFF
}

/// The strict `<` order of binary32, on bit patterns.
pub open spec fn spec_lt(a: u32, b: u32) -> bool {
    if spec_is_nan(a) || spec_is_nan(b) {
        false
    } else if spec_mag(a) == 0 && spec_mag(b) == 0 {
        false
    } else if spec_is_neg(a) != spec_is_neg(b) {
        spec_is_neg(a)
    } else if spec_is_neg(a) {
        spec_mag(b) < spec_mag(a)
    } else {
        spec_mag(a) < spec_mag(b)
    }
}

/// Between zero and 360 the binary32 order is the integer order of the bit
/// patterns: a value lies strictly between 0 and 360 exactly when its bit
/// pattern lies strictly between `ZERO_BITS` and `FULL_TURN_BITS`. Every
/// pattern in that range has the sign bit clear and an exponent field below
/// all ones, so the sign, zero and NaN cases of `spec_lt` all collapse.
pub proof fn lemma_positive_range_is_bit_range(f: u32)
    ensures
        (spec_lt(ZERO_BITS, f) && spec_lt(f, FULL_TURN_BITS)) <==> (0 < f
            && f < FULL_TURN_BITS),
{
    assert((0u32 & 0x7F80_0000) != 0x7F80_0000) by (bit_vector);
    assert((0u32 & 0x7FFF_FFFF) == 0) by (bit_vector);
    assert((0u32 & 0x8000_0000) == 0) by (bit_vector);
    assert((0x43B4_0000u32 & 0x7F80_0000) != 0x7F80_0000) by (bit_vector);
    assert((0x43B4_0000u32 & 0x7FFF_FFFF) == 0x43B4_0000) by (bit_vector);
    assert((0x43B4_0000u32 & 0x8000_0000) == 0) by (bit_vector);
    assert((f & 0x8000_0000) == 0 ==> (f & 0x7FFF_FFFF) == f) by (bit_vector);
    assert(f < 0x8000_0000u32 ==> (f & 0x8000_0000) == 0) by (bit_vector);
    assert((f & 0x7F80_0000) == 0x7F80_0000 ==> (f & 0x7FFF_FFFF) >= 0x7F80_0000u32)
        by (bit_vector);
}

/// Decides the strict `<` order of binary32 on two bit patterns.
pub fn lt_bits(a: u32, b: u32) -> (r: bool)
    ensures
        r == spec_lt(a, b),
{
    if (a & 0x7F80_0000) == 0x7F80_0000 && (a & 0x007F_FFFF) != 0 {
        return false;
    }
    if (b & 0x7F80_0000) == 0x7F80_0000 && (b & 0x007F_FFFF) != 0 {
        return false;
    }
    let ma: u32 = a & 0x7FFF_FFFF;
    let mb: u32 = b & 0x7FFF_FFFF;
    if ma == 0 && mb == 0 {
        return false;
    }
    let na: bool = (a & 0x8000_0000) != 0;
    let nb: bool = (b & 0x8000_0000) != 0;
    if na != nb {
        na
    } else if na {
        mb < ma
    } else {
        ma < mb
    }
}

} // verus!
