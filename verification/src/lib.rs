//! A vectorized two-dimensional point primitive.
//!
//! The crate carries every coordinate as the `u32` bit pattern of an IEEE-754
//! binary32 value, so that the lane layout, the numeric equality semantics and
//! the element-wise operations can be stated and checked exactly at the bit
//! level. [`ieee`] holds the bit-pattern model, [`arith`] the rounded
//! arithmetic, and [`point`] the point types built on them.

pub mod arith;
pub mod ieee;
pub mod point;

pub use arith::add_bits;
pub use arith::mul_bits;
pub use arith::sub_bits;
pub use ieee::eq_bits;
pub use ieee::is_finite_bits;
pub use ieee::is_nan_bits;
pub use ieee::lane_eq;
pub use ieee::lane_is_finite;
pub use ieee::lane_is_nan;
pub use ieee::lane_lt;
pub use ieee::lane_mag;
pub use ieee::lane_max;
pub use ieee::lane_min;
pub use ieee::le_bits;
pub use ieee::lemma_lane_min_max_bounds;
pub use ieee::lt_bits;
pub use ieee::mag_bits;
pub use ieee::max_bits;
pub use ieee::min_bits;
pub use ieee::ord_of;
pub use point::all_lanes_finite;
pub use point::lemma_euclid_round_trip;
pub use point::lemma_min_max_bounds;
pub use point::lemma_new_coordinates;
pub use point::point_eq;
pub use point::spec_add;
pub use point::spec_as_euclid;
pub use point::spec_from_euclid;
pub use point::spec_max;
pub use point::spec_min;
pub use point::spec_mul;
pub use point::spec_new;
pub use point::spec_splat;
pub use point::spec_sub;
pub use point::spec_zero;
pub use point::xy_finite;
pub use point::Point2D;
pub use point::Point2DF32;
