//! The vectorized two-dimensional point and its scalar interop type.
//!
//! [`Point2DF32`] stands for one four-lane binary32 vector register: lane 0
//! holds the x-coordinate, lane 1 the y-coordinate, and lanes 2 and 3 exist
//! because the register width is fixed but carry no geometric meaning. Every
//! lane is carried as the `u32` bit pattern of its binary32 value. All
//! operations are total and element-wise, equality compares lanes 0 and 1
//! under IEEE-754 numeric equality (so NaN differs from itself and the two
//! zeros coincide), and [`Point2D`] is the plain two-field scalar form that
//! collaborators convert through.

use vstd::prelude::*;
use crate::arith::add_bits;
use crate::arith::lane_add;
use crate::arith::lane_mul;
use crate::arith::lane_sub;
use crate::arith::mul_bits;
use crate::arith::sub_bits;
use crate::ieee::eq_bits;
use crate::ieee::is_finite_bits;
use crate::ieee::lane_eq;
use crate::ieee::lane_max;
use crate::ieee::lane_min;
use crate::ieee::le_bits;
use crate::ieee::lemma_lane_min_max_bounds;
use crate::ieee::max_bits;
use crate::ieee::min_bits;

verus! {

/// The scalar two-dimensional point: two independent coordinates, each the
/// `u32` bit pattern of a binary32 value, with no vector layout. This is the
/// only representation collaborators may persist; equality on it is equality
/// of the bit patterns.
#[derive(Clone, Copy, Debug, PartialEq, Eq, Structural)]
pub struct Point2D {
    /// The bit pattern of the x-coordinate.
    pub x: u32,
    /// The bit pattern of the y-coordinate.
    pub y: u32,
}

/// A two-dimensional point packed into one four-lane binary32 vector
/// register. Lane 0 is the x-coordinate and lane 1 the y-coordinate; lanes 2
/// and 3 are present because the register width is fixed, take part in every
/// element-wise operation, but carry no geometric meaning and never take part
/// in equality.
#[derive(Clone, Copy, Debug)]
pub struct Point2DF32 {
    /// Lane 0: the bit pattern of the x-coordinate.
    pub lane0: u32,
    /// Lane 1: the bit pattern of the y-coordinate.
    pub lane1: u32,
    /// Lane 2: no geometric meaning.
    pub lane2: u32,
    /// Lane 3: no geometric meaning.
    pub lane3: u32,
}

/// The point with the given coordinate bit patterns in lanes 0 and 1 and both
/// spare lanes zeroed.
pub open spec fn spec_new(x: u32, y: u32) -> Point2DF32 {
    Point2DF32 { lane0: x, lane1: y, lane2: 0, lane3: 0 }
}

/// The zero point: every lane holds the pattern of positive zero.
pub open spec fn spec_zero() -> Point2DF32 {
    spec_new(0, 0)
}

/// The point with every lane equal to the given bit pattern.
pub open spec fn spec_splat(v: u32) -> Point2DF32 {
    Point2DF32 { lane0: v, lane1: v, lane2: v, lane3: v }
}

/// Equality of two points: IEEE-754 numeric equality of lane 0 and of lane 1;
/// lanes 2 and 3 never take part.
pub open spec fn point_eq(a: Point2DF32, b: Point2DF32) -> bool {
    eq_bits(a.lane0, b.lane0) && eq_bits(a.lane1, b.lane1)
}

/// Both coordinate lanes hold finite values.
pub open spec fn xy_finite(p: Point2DF32) -> bool {
    is_finite_bits(p.lane0) && is_finite_bits(p.lane1)
}

/// All four lanes hold finite values.
pub open spec fn all_lanes_finite(p: Point2DF32) -> bool {
    &&& is_finite_bits(p.lane0)
    &&& is_finite_bits(p.lane1)
    &&& is_finite_bits(p.lane2)
    &&& is_finite_bits(p.lane3)
}

/// The element-wise rounded sum of two points.
pub open spec fn spec_add(a: Point2DF32, b: Point2DF32) -> Point2DF32 {
    Point2DF32 {
        lane0: add_bits(a.lane0, b.lane0),
        lane1: add_bits(a.lane1, b.lane1),
        lane2: add_bits(a.lane2, b.lane2),
        lane3: add_bits(a.lane3, b.lane3),
    }
}

/// The element-wise rounded difference of two points.
pub open spec fn spec_sub(a: Point2DF32, b: Point2DF32) -> Point2DF32 {
    Point2DF32 {
        lane0: sub_bits(a.lane0, b.lane0),
        lane1: sub_bits(a.lane1, b.lane1),
        lane2: sub_bits(a.lane2, b.lane2),
        lane3: sub_bits(a.lane3, b.lane3),
    }
}

/// The element-wise rounded product of two points.
pub open spec fn spec_mul(a: Point2DF32, b: Point2DF32) -> Point2DF32 {
    Point2DF32 {
        lane0: mul_bits(a.lane0, b.lane0),
        lane1: mul_bits(a.lane1, b.lane1),
        lane2: mul_bits(a.lane2, b.lane2),
        lane3: mul_bits(a.lane3, b.lane3),
    }
}

/// The element-wise minimum of two points.
pub open spec fn spec_min(a: Point2DF32, b: Point2DF32) -> Point2DF32 {
    Point2DF32 {
        lane0: min_bits(a.lane0, b.lane0),
        lane1: min_bits(a.lane1, b.lane1),
        lane2: min_bits(a.lane2, b.lane2),
        lane3: min_bits(a.lane3, b.lane3),
    }
}

/// The element-wise maximum of two points.
pub open spec fn spec_max(a: Point2DF32, b: Point2DF32) -> Point2DF32 {
    Point2DF32 {
        lane0: max_bits(a.lane0, b.lane0),
        lane1: max_bits(a.lane1, b.lane1),
        lane2: max_bits(a.lane2, b.lane2),
        lane3: max_bits(a.lane3, b.lane3),
    }
}

/// The vectorized form of a scalar point: its coordinates in lanes 0 and 1,
/// the spare lanes zeroed.
pub open spec fn spec_from_euclid(p: Point2D) -> Point2DF32 {
    spec_new(p.x, p.y)
}

/// The scalar form of a vectorized point: lanes 0 and 1, bit for bit.
pub open spec fn spec_as_euclid(v: Point2DF32) -> Point2D {
    Point2D { x: v.lane0, y: v.lane1 }
}

impl Point2DF32 {
    /// Builds the point with the given coordinate bit patterns; the spare
    /// lanes are zeroed, never read from uninitialized state.
    pub fn new(x: u32, y: u32) -> (r: Point2DF32)
        ensures
            r == spec_new(x, y),
    {
        Point2DF32 { lane0: x, lane1: y, lane2: 0, lane3: 0 }
    }

    /// Builds the point with every lane, the spare ones included, equal to the
    /// given bit pattern.
    pub fn splat(value: u32) -> (r: Point2DF32)
        ensures
            r == spec_splat(value),
    {
        Point2DF32 { lane0: value, lane1: value, lane2: value, lane3: value }
    }

    /// Converts a scalar point to its vectorized form, bit for bit.
    pub fn from_euclid(point: Point2D) -> (r: Point2DF32)
        ensures
            r == spec_from_euclid(point),
    {
        Point2DF32::new(point.x, point.y)
    }

    /// Converts the point back to its scalar form, bit for bit.
    pub fn as_euclid(&self) -> (r: Point2D)
        ensures
            r == spec_as_euclid(*self),
    {
        Point2D { x: self.lane0, y: self.lane1 }
    }

    /// The bit pattern of the x-coordinate, lane 0.
    pub fn x(&self) -> (r: u32)
        ensures
            r == self.lane0,
    {
        self.lane0
    }

    /// The bit pattern of the y-coordinate, lane 1.
    pub fn y(&self) -> (r: u32)
        ensures
            r == self.lane1,
    {
        self.lane1
    }

    /// The element-wise minimum of the two points, across all four lanes.
    /// Whenever a lane of `self` is NaN, the lane of `other` comes back, and
    /// whenever a lane of `other` is NaN, that NaN comes back.
    pub fn min(&self, other: Point2DF32) -> (r: Point2DF32)
        ensures
            r == spec_min(*self, other),
    {
        Point2DF32 {
            lane0: lane_min(self.lane0, other.lane0),
            lane1: lane_min(self.lane1, other.lane1),
            lane2: lane_min(self.lane2, other.lane2),
            lane3: lane_min(self.lane3, other.lane3),
        }
    }

    /// The element-wise maximum of the two points, across all four lanes,
    /// with the NaN handling mirrored from [`Point2DF32::min`].
    pub fn max(&self, other: Point2DF32) -> (r: Point2DF32)
        ensures
            r == spec_max(*self, other),
    {
        Point2DF32 {
            lane0: lane_max(self.lane0, other.lane0),
            lane1: lane_max(self.lane1, other.lane1),
            lane2: lane_max(self.lane2, other.lane2),
            lane3: lane_max(self.lane3, other.lane3),
        }
    }

    /// The element-wise rounded sum, across all four lanes. For points whose
    /// coordinate lanes are finite, the sum does not depend on the order of
    /// the operands, and adding the zero point gives the point itself back,
    /// both under point equality.
    pub fn add(self, other: Point2DF32) -> (r: Point2DF32)
        ensures
            r == spec_add(self, other),
            xy_finite(self) && xy_finite(other) ==> point_eq(r, spec_add(other, self)),
            xy_finite(self) && other.lane0 == 0 && other.lane1 == 0 ==> point_eq(r, self),
    {
        Point2DF32 {
            lane0: lane_add(self.lane0, other.lane0),
            lane1: lane_add(self.lane1, other.lane1),
            lane2: lane_add(self.lane2, other.lane2),
            lane3: lane_add(self.lane3, other.lane3),
        }
    }

    /// The element-wise rounded difference, across all four lanes. A point
    /// with finite coordinate lanes minus itself equals the zero point.
    pub fn sub(self, other: Point2DF32) -> (r: Point2DF32)
        ensures
            r == spec_sub(self, other),
            xy_finite(self) && other.lane0 == self.lane0 && other.lane1 == self.lane1
                ==> point_eq(r, spec_zero()),
    {
        Point2DF32 {
            lane0: lane_sub(self.lane0, other.lane0),
            lane1: lane_sub(self.lane1, other.lane1),
            lane2: lane_sub(self.lane2, other.lane2),
            lane3: lane_sub(self.lane3, other.lane3),
        }
    }

    /// The element-wise rounded product, across all four lanes: the Hadamard
    /// product, not a dot product. For points whose coordinate lanes are
    /// finite, the product does not depend on the order of the operands,
    /// under point equality.
    pub fn mul(self, other: Point2DF32) -> (r: Point2DF32)
        ensures
            r == spec_mul(self, other),
            xy_finite(self) && xy_finite(other) ==> point_eq(r, spec_mul(other, self)),
    {
        Point2DF32 {
            lane0: lane_mul(self.lane0, other.lane0),
            lane1: lane_mul(self.lane1, other.lane1),
            lane2: lane_mul(self.lane2, other.lane2),
            lane3: lane_mul(self.lane3, other.lane3),
        }
    }
}

impl PartialEq for Point2DF32 {
    /// IEEE-754 numeric equality of lanes 0 and 1; lanes 2 and 3 never take
    /// part. In particular a point with a NaN coordinate differs from itself,
    /// and points whose coordinates are the two zero patterns are equal.
    fn eq(&self, other: &Point2DF32) -> (r: bool) {
        lane_eq(self.lane0, other.lane0) && lane_eq(self.lane1, other.lane1)
    }
}

impl vstd::std_specs::cmp::PartialEqSpecImpl for Point2DF32 {
    open spec fn obeys_eq_spec() -> bool {
        true
    }

    open spec fn eq_spec(&self, other: &Point2DF32) -> bool {
        point_eq(*self, *other)
    }
}

impl Default for Point2DF32 {
    /// The zero point: every lane holds the pattern of positive zero.
    fn default() -> (r: Point2DF32)
        ensures
            r == spec_zero(),
    {
        Point2DF32 { lane0: 0, lane1: 0, lane2: 0, lane3: 0 }
    }
}

/// Construction places the coordinates: the point built from `x` and `y`
/// holds `x` in lane 0, read back by `x()`, and `y` in lane 1, read back by
/// `y()`.
pub proof fn lemma_new_coordinates(x: u32, y: u32)
    ensures
        spec_new(x, y).lane0 == x,
        spec_new(x, y).lane1 == y,
{
}

/// Converting a scalar point to the vectorized form and back is the identity,
/// bit for bit.
pub proof fn lemma_euclid_round_trip(p: Point2D)
    ensures
        spec_as_euclid(spec_from_euclid(p)) == p,
{
}

/// For points whose lanes are all finite, every lane of the element-wise
/// minimum orders at or below the matching lanes of both operands, and every
/// lane of the element-wise maximum at or above them, under the IEEE-754
/// numeric order.
pub proof fn lemma_min_max_bounds(a: Point2DF32, b: Point2DF32)
    requires
        all_lanes_finite(a),
        all_lanes_finite(b),
    ensures
        le_bits(spec_min(a, b).lane0, a.lane0) && le_bits(spec_min(a, b).lane0, b.lane0),
        le_bits(spec_min(a, b).lane1, a.lane1) && le_bits(spec_min(a, b).lane1, b.lane1),
        le_bits(spec_min(a, b).lane2, a.lane2) && le_bits(spec_min(a, b).lane2, b.lane2),
        le_bits(spec_min(a, b).lane3, a.lane3) && le_bits(spec_min(a, b).lane3, b.lane3),
        le_bits(a.lane0, spec_max(a, b).lane0) && le_bits(b.lane0, spec_max(a, b).lane0),
        le_bits(a.lane1, spec_max(a, b).lane1) && le_bits(b.lane1, spec_max(a, b).lane1),
        le_bits(a.lane2, spec_max(a, b).lane2) && le_bits(b.lane2, spec_max(a, b).lane2),
        le_bits(a.lane3, spec_max(a, b).lane3) && le_bits(b.lane3, spec_max(a, b).lane3),
{
    lemma_lane_min_max_bounds(a.lane0, b.lane0);
    lemma_lane_min_max_bounds(a.lane1, b.lane1);
    lemma_lane_min_max_bounds(a.lane2, b.lane2);
    lemma_lane_min_max_bounds(a.lane3, b.lane3);
}

} // verus!
