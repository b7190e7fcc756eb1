//! Rounded IEEE-754 binary32 arithmetic on bit patterns.
//!
//! Addition, subtraction and multiplication of binary32 values cannot be
//! written out as short spec functions, so each gets an uninterpreted name for
//! its result and a trusted wrapper around `rustc_apfloat`, which computes the
//! operation in software from the operand bit patterns alone: the same
//! operands give the same result bits in every process and on every machine.
//! Rounding is to nearest, ties to even, the IEEE-754 default that `+`, `-`
//! and `*` on hardware floats use as well. Each wrapper also states the few
//! IEEE-754 facts about finite operands that the point laws rest on.

use vstd::prelude::*;
use crate::ieee::is_finite_bits;
use crate::ieee::is_nan_bits;
use rustc_apfloat::Float;
use rustc_apfloat::Round;
use rustc_apfloat::ieee::Single;

verus! {

/// The bit pattern of the correctly rounded binary32 sum of two bit patterns.
pub uninterp spec fn add_bits(a: u32, b: u32) -> u32;

/// The bit pattern of the correctly rounded binary32 difference of two bit
/// patterns.
pub uninterp spec fn sub_bits(a: u32, b: u32) -> u32;

/// The bit pattern of the correctly rounded binary32 product of two bit
/// patterns.
pub uninterp spec fn mul_bits(a: u32, b: u32) -> u32;

/// Relies on `rustc_apfloat::ieee::Single::add_r` with rounding to nearest,
/// ties to even: software IEEE-754 binary32 addition, a function of the two
/// operand bit patterns alone. The further clauses are IEEE-754 facts of that
/// addition: the correctly rounded sum of finite operands does not depend on
/// their order and is never NaN, and adding positive zero to a finite operand
/// returns it unchanged, except that a negative zero operand comes back as
/// positive zero.
#[verifier::external_body]
pub(crate) fn lane_add(a: u32, b: u32) -> (r: u32)
    ensures
        r == add_bits(a, b),
        is_finite_bits(a) && is_finite_bits(b) ==> r == add_bits(b, a),
        is_finite_bits(a) && is_finite_bits(b) ==> !is_nan_bits(r),
        is_finite_bits(a) && b == 0 ==> r == (if a == 0x8000_0000 { 0u32 } else { a }),
{
    let x = Single::from_bits(a as u128);
    let y = Single::from_bits(b as u128);
    x.add_r(y, Round::NearestTiesToEven).value.to_bits() as u32
}

/// Relies on `rustc_apfloat::ieee::Single::sub_r` with rounding to nearest,
/// ties to even: software IEEE-754 binary32 subtraction, a function of the two
/// operand bit patterns alone. The further clause is an IEEE-754 fact of that
/// subtraction: a finite operand minus itself is exactly positive zero under
/// rounding to nearest.
#[verifier::external_body]
pub(crate) fn lane_sub(a: u32, b: u32) -> (r: u32)
    ensures
        r == sub_bits(a, b),
        is_finite_bits(a) && b == a ==> r == 0,
{
    let x = Single::from_bits(a as u128);
    let y = Single::from_bits(b as u128);
    x.sub_r(y, Round::NearestTiesToEven).value.to_bits() as u32
}

/// Relies on `rustc_apfloat::ieee::Single::mul_r` with rounding to nearest,
/// ties to even: software IEEE-754 binary32 multiplication, a function of the
/// two operand bit patterns alone. The further clauses are IEEE-754 facts of
/// that multiplication: the correctly rounded product of finite operands does
/// not depend on their order and is never NaN.
#[verifier::external_body]
pub(crate) fn lane_mul(a: u32, b: u32) -> (r: u32)
    ensures
        r == mul_bits(a, b),
        is_finite_bits(a) && is_finite_bits(b) ==> r == mul_bits(b, a),
        is_finite_bits(a) && is_finite_bits(b) ==> !is_nan_bits(r),
{
    let x = Single::from_bits(a as u128);
    let y = Single::from_bits(b as u128);
    x.mul_r(y, Round::NearestTiesToEven).value.to_bits() as u32
}

} // verus!
