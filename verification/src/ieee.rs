//! A bit-level model of IEEE-754 binary32 values.
//!
//! Every coordinate in this crate is carried as the `u32` bit pattern of a
//! binary32 value: the sign in the top bit, then eight exponent bits, then the
//! 23-bit significand. The spec functions here read those patterns
//! arithmetically: the magnitude (the pattern with the sign bit cleared)
//! classifies a value as finite, infinite or NaN, and a signed order value
//! gives the numeric order of non-NaN values, under which the two zero
//! patterns coincide. Numeric equality and the numeric order on bit patterns,
//! as well as the element-wise minimum and maximum, are defined and verified
//! here; they need no floating-point hardware.

use vstd::prelude::*;

verus! {

/// The bit pattern with the sign bit cleared: the magnitude of the encoded
/// value. Patterns at or above `0x8000_0000` carry the sign bit.
pub open spec fn mag_bits(b: u32) -> u32 {
    if b >= 0x8000_0000 {
        (b - 0x8000_0000) as u32
    } else {
        b
    }
}

/// A binary32 pattern encodes NaN exactly when its magnitude lies above the
/// pattern of positive infinity (`0x7f80_0000`): exponent all ones with a
/// non-zero significand.
pub open spec fn is_nan_bits(b: u32) -> bool {
    mag_bits(b) > 0x7f80_0000
}

/// A binary32 pattern encodes a finite value exactly when its magnitude lies
/// below the pattern of positive infinity.
pub open spec fn is_finite_bits(b: u32) -> bool {
    mag_bits(b) < 0x7f80_0000
}

/// The numeric order of a non-NaN binary32 pattern as a signed integer:
/// negative values order below positive ones, both zeros map to zero, and
/// within one sign the magnitude orders the values. Two non-NaN patterns are
/// numerically equal exactly when their order values coincide.
pub open spec fn ord_of(b: u32) -> int {
    if b >= 0x8000_0000 {
        -(mag_bits(b) as int)
    } else {
        b as int
    }
}

/// IEEE-754 numeric equality on bit patterns: false whenever either side is
/// NaN; the two zero patterns are equal; otherwise equal bits only.
pub open spec fn eq_bits(a: u32, b: u32) -> bool {
    &&& !is_nan_bits(a)
    &&& !is_nan_bits(b)
    &&& ord_of(a) == ord_of(b)
}

/// IEEE-754 numeric "less than" on bit patterns: false whenever either side
/// is NaN.
pub open spec fn lt_bits(a: u32, b: u32) -> bool {
    &&& !is_nan_bits(a)
    &&& !is_nan_bits(b)
    &&& ord_of(a) < ord_of(b)
}

/// IEEE-754 numeric "less than or equal" on bit patterns: false whenever
/// either side is NaN.
pub open spec fn le_bits(a: u32, b: u32) -> bool {
    &&& !is_nan_bits(a)
    &&& !is_nan_bits(b)
    &&& ord_of(a) <= ord_of(b)
}

/// The element-wise minimum, with the semantics of the common vector minimum
/// instruction: the first operand when it compares below the second, else the
/// second operand. In particular the second operand comes back whenever either
/// operand is NaN.
pub open spec fn min_bits(a: u32, b: u32) -> u32 {
    if lt_bits(a, b) {
        a
    } else {
        b
    }
}

/// The element-wise maximum, with the semantics of the common vector maximum
/// instruction: the first operand when it compares above the second, else the
/// second operand.
pub open spec fn max_bits(a: u32, b: u32) -> u32 {
    if lt_bits(b, a) {
        a
    } else {
        b
    }
}

/// The magnitude of a bit pattern, executable form.
pub fn lane_mag(b: u32) -> (r: u32)
    ensures
        r == mag_bits(b),
{
    if b >= 0x8000_0000 {
        b - 0x8000_0000
    } else {
        b
    }
}

/// Tests whether a bit pattern encodes NaN.
pub fn lane_is_nan(b: u32) -> (r: bool)
    ensures
        r == is_nan_bits(b),
{
    lane_mag(b) > 0x7f80_0000
}

/// Tests whether a bit pattern encodes a finite value.
pub fn lane_is_finite(b: u32) -> (r: bool)
    ensures
        r == is_finite_bits(b),
{
    lane_mag(b) < 0x7f80_0000
}

/// IEEE-754 numeric equality of two bit patterns.
pub fn lane_eq(a: u32, b: u32) -> (r: bool)
    ensures
        r == eq_bits(a, b),
{
    let am = lane_mag(a);
    let bm = lane_mag(b);
    if am > 0x7f80_0000 || bm > 0x7f80_0000 {
        false
    } else {
        a == b || (am == 0 && bm == 0)
    }
}

/// IEEE-754 numeric "less than" of two bit patterns.
pub fn lane_lt(a: u32, b: u32) -> (r: bool)
    ensures
        r == lt_bits(a, b),
{
    let am = lane_mag(a);
    let bm = lane_mag(b);
    if am > 0x7f80_0000 || bm > 0x7f80_0000 {
        false
    } else if a >= 0x8000_0000 {
        if b >= 0x8000_0000 {
            bm < am
        } else {
            am != 0 || bm != 0
        }
    } else {
        if b >= 0x8000_0000 {
            false
        } else {
            am < bm
        }
    }
}

/// The element-wise minimum of two bit patterns.
pub fn lane_min(a: u32, b: u32) -> (r: u32)
    ensures
        r == min_bits(a, b),
{
    if lane_lt(a, b) {
        a
    } else {
        b
    }
}

/// The element-wise maximum of two bit patterns.
pub fn lane_max(a: u32, b: u32) -> (r: u32)
    ensures
        r == max_bits(a, b),
{
    if lane_lt(b, a) {
        a
    } else {
        b
    }
}

/// The minimum of two finite patterns orders at or below both operands, and
/// the maximum at or above both, under the numeric order.
pub proof fn lemma_lane_min_max_bounds(a: u32, b: u32)
    requires
        is_finite_bits(a),
        is_finite_bits(b),
    ensures
        le_bits(min_bits(a, b), a),
        le_bits(min_bits(a, b), b),
        le_bits(a, max_bits(a, b)),
        le_bits(b, max_bits(a, b)),
{
}

} // verus!
