//! Sample arithmetic over IEEE-754 single-precision bit patterns.
//!
//! Every sample and parameter value is carried as the `u32` bit pattern of
//! an IEEE-754 single-precision value. Operations whose bit-level behaviour
//! is a short, exact statement (absolute value, the parameter floor clamp)
//! are implemented and verified here directly. Addition, subtraction,
//! multiplication and division are delegated to `rustc_apfloat`, a software
//! implementation of IEEE-754 binary32 arithmetic that works directly on
//! bit patterns, behind trusted wrappers. Each wrapper's result is named by
//! an uninterpreted spec function, refined by the few exact corner cases
//! (all around zero) that the IEEE-754 standard pins down and that the
//! verified layers above rely on.

use vstd::prelude::*;

use rustc_apfloat::Float;
use rustc_apfloat::ieee::Single;

verus! {

/// Bit pattern of positive zero.
pub const POS_ZERO_BITS: u32 = 0;

/// Bit pattern of one.
pub const ONE_BITS: u32 = 0x3F80_0000;

/// Bit pattern of one hundred, the percentage display scale.
pub const HUNDRED_BITS: u32 = 0x42C8_0000;

/// Bit pattern of positive infinity; also the least upper bound of the
/// bit patterns of the non-negative non-NaN values.
pub const POS_INFINITY_BITS: u32 = 0x7F80_0000;

/// Bit pattern of one thousandth, the floor below which parameter writes
/// are clamped.
pub const PARAM_FLOOR_BITS: u32 = 0x3A83_126F;

/// The bit pattern with the sign bit cleared: the IEEE-754 absolute value.
pub open spec fn abs_of(bits: u32) -> u32 {
    if bits >= 0x8000_0000 {
        (bits - 0x8000_0000) as u32
    } else {
        bits
    }
}

/// The pattern denotes a non-negative finite value (zero, a positive
/// subnormal or a positive normal number): sign bit clear and magnitude
/// below the infinity/NaN range.
pub open spec fn is_pos_finite(bits: u32) -> bool {
    bits < POS_INFINITY_BITS
}

/// The pattern denotes a finite value of either sign.
pub open spec fn is_finite(bits: u32) -> bool {
    abs_of(bits) < POS_INFINITY_BITS
}

/// Name for the IEEE-754 single-precision sum of two bit patterns, where
/// the operands do not fall under a pinned-down case.
pub uninterp spec fn add_raw(x: u32, y: u32) -> u32;

/// Name for the IEEE-754 single-precision difference of two bit patterns,
/// where the operands do not fall under a pinned-down case.
pub uninterp spec fn sub_raw(x: u32, y: u32) -> u32;

/// Name for the IEEE-754 single-precision product of two bit patterns,
/// where the operands do not fall under a pinned-down case.
pub uninterp spec fn mul_raw(x: u32, y: u32) -> u32;

/// Name for the IEEE-754 single-precision quotient of two bit patterns,
/// where the operands do not fall under a pinned-down case.
pub uninterp spec fn div_raw(x: u32, y: u32) -> u32;

/// The sum of two samples. In IEEE-754 round-to-nearest the sum of two
/// positive zeros is positive zero; every other case keeps its name.
pub open spec fn add_of(x: u32, y: u32) -> u32 {
    if x == POS_ZERO_BITS && y == POS_ZERO_BITS {
        POS_ZERO_BITS
    } else {
        add_raw(x, y)
    }
}

/// The difference of two samples. In IEEE-754 round-to-nearest the
/// difference of a finite value and itself is positive zero; every other
/// case keeps its name.
pub open spec fn sub_of(x: u32, y: u32) -> u32 {
    if x == y && is_finite(x) {
        POS_ZERO_BITS
    } else {
        sub_raw(x, y)
    }
}

/// The product of two samples. In IEEE-754 the product of positive zero
/// and a non-negative finite value is positive zero (the sign of a product
/// is the exclusive or of the operand signs); every other case keeps its
/// name.
pub open spec fn mul_of(x: u32, y: u32) -> u32 {
    if x == POS_ZERO_BITS && is_pos_finite(y) {
        POS_ZERO_BITS
    } else if y == POS_ZERO_BITS && is_pos_finite(x) {
        POS_ZERO_BITS
    } else {
        mul_raw(x, y)
    }
}

/// The quotient of two samples. In IEEE-754 positive zero divided by a
/// strictly positive finite value is positive zero; every other case keeps
/// its name.
pub open spec fn div_of(x: u32, y: u32) -> u32 {
    if x == POS_ZERO_BITS && is_pos_finite(y) && y != POS_ZERO_BITS {
        POS_ZERO_BITS
    } else {
        div_raw(x, y)
    }
}

/// Relies on `rustc_apfloat::ieee::Single::add_r` (via the `Add` impl,
/// which rounds to nearest, ties to even): IEEE-754 binary32 addition as a
/// pure function of the operand bit patterns; the sum of two positive
/// zeros is positive zero.
#[verifier::external_body]
pub(crate) fn add_bits(x: u32, y: u32) -> (r: u32)
    ensures
        r == add_of(x, y),
        !(x == POS_ZERO_BITS && y == POS_ZERO_BITS) ==> r == add_raw(x, y),
{
    let sum = Single::from_bits(x as u128) + Single::from_bits(y as u128);
    sum.value.to_bits() as u32
}

/// Relies on `rustc_apfloat::ieee::Single::sub_r` (via the `Sub` impl,
/// which rounds to nearest, ties to even): IEEE-754 binary32 subtraction
/// as a pure function of the operand bit patterns; a finite value minus
/// itself is positive zero.
#[verifier::external_body]
pub(crate) fn sub_bits(x: u32, y: u32) -> (r: u32)
    ensures
        r == sub_of(x, y),
        !(x == y && is_finite(x)) ==> r == sub_raw(x, y),
{
    let diff = Single::from_bits(x as u128) - Single::from_bits(y as u128);
    diff.value.to_bits() as u32
}

/// Relies on `rustc_apfloat::ieee::Single::mul_r` (via the `Mul` impl,
/// which rounds to nearest, ties to even): IEEE-754 binary32
/// multiplication as a pure function of the operand bit patterns; the
/// product of positive zero and a non-negative finite value is positive
/// zero.
#[verifier::external_body]
pub(crate) fn mul_bits(x: u32, y: u32) -> (r: u32)
    ensures
        r == mul_of(x, y),
        !(x == POS_ZERO_BITS && is_pos_finite(y)) && !(y == POS_ZERO_BITS && is_pos_finite(x))
            ==> r == mul_raw(x, y),
{
    let product = Single::from_bits(x as u128) * Single::from_bits(y as u128);
    product.value.to_bits() as u32
}

/// Relies on `rustc_apfloat::ieee::Single::div_r` (via the `Div` impl,
/// which rounds to nearest, ties to even): IEEE-754 binary32 division as a
/// pure function of the operand bit patterns; positive zero divided by a
/// strictly positive finite value is positive zero.
#[verifier::external_body]
pub(crate) fn div_bits(x: u32, y: u32) -> (r: u32)
    ensures
        r == div_of(x, y),
        !(x == POS_ZERO_BITS && is_pos_finite(y) && y != POS_ZERO_BITS) ==> r == div_raw(x, y),
{
    let quotient = Single::from_bits(x as u128) / Single::from_bits(y as u128);
    quotient.value.to_bits() as u32
}

/// The IEEE-754 absolute value: the bit pattern with the sign bit cleared.
/// This matches the standard single-precision `abs`, which is exact, for
/// every input including zeros, infinities and NaNs.
pub fn abs_bits(x: u32) -> (r: u32)
    ensures
        r == abs_of(x),
{
    if x >= 0x8000_0000 {
        x - 0x8000_0000
    } else {
        x
    }
}

/// A write below the parameter floor is clamped up to the floor; any other
/// non-NaN value at least the floor is stored unchanged.
///
/// Over bit patterns: the single-precision values that compare at least
/// equal to the (positive) floor are exactly those whose patterns lie
/// between the floor's pattern and positive infinity's, in unsigned
/// integer order. Every other pattern — smaller positive values, the two
/// zeros, all negative values, and every NaN — is taken to the floor,
/// which matches the standard single-precision `max(value, floor)` (whose
/// result is the other operand when one operand is NaN).
pub open spec fn clamp_of(value: u32) -> u32 {
    if PARAM_FLOOR_BITS <= value <= POS_INFINITY_BITS {
        value
    } else {
        PARAM_FLOOR_BITS
    }
}

/// Clamp a parameter write to the parameter floor, over bit patterns.
pub fn clamp_param(value: u32) -> (r: u32)
    ensures
        r == clamp_of(value),
{
    if PARAM_FLOOR_BITS <= value && value <= POS_INFINITY_BITS {
        value
    } else {
        PARAM_FLOOR_BITS
    }
}

} // verus!
