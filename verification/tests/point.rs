//! Runtime checks of the vectorized point: construction, conversion,
//! arithmetic, comparison and min/max, on concrete binary32 values.

use geometry::Point2D;
use geometry::Point2DF32;

fn bits(v: f32) -> u32 {
    v.to_bits()
}

fn pt(x: f32, y: f32) -> Point2DF32 {
    Point2DF32::new(bits(x), bits(y))
}

#[test]
fn new_places_coordinates() {
    let samples: [(f32, f32); 4] = [
        (3.5, -7.25),
        (0.0, -0.0),
        (1.0e-40, 3.4e38),
        (-1.5, 2.0),
    ];
    for (x, y) in samples {
        let p = pt(x, y);
        assert_eq!(p.x(), bits(x));
        assert_eq!(p.y(), bits(y));
    }
}

#[test]
fn new_keeps_nan_payload_bits() {
    let odd_nan: u32 = 0x7fc1_2345;
    let p = Point2DF32::new(odd_nan, bits(0.0));
    assert_eq!(p.x(), odd_nan);
}

#[test]
fn euclid_round_trip() {
    let samples: [(f32, f32); 4] = [
        (3.0, 4.0),
        (-0.0, 0.0),
        (f32::MAX, f32::MIN_POSITIVE),
        (-2.5, -1.0e-42),
    ];
    for (x, y) in samples {
        let scalar = Point2D { x: bits(x), y: bits(y) };
        let back = Point2DF32::from_euclid(scalar).as_euclid();
        assert_eq!(back, scalar);
    }
}

#[test]
fn from_euclid_places_coordinates() {
    let scalar = Point2D { x: bits(3.0), y: bits(4.0) };
    let v = Point2DF32::from_euclid(scalar);
    assert_eq!(v.x(), bits(3.0));
    assert_eq!(v.y(), bits(4.0));
}

#[test]
fn add_commutes() {
    let pairs: [(Point2DF32, Point2DF32); 3] = [
        (pt(3.0, 4.0), pt(1.0, -2.0)),
        (pt(0.1, -0.3), pt(1.0e20, 7.5)),
        (pt(-0.0, 1.0e-42), pt(0.0, 2.5)),
    ];
    for (a, b) in pairs {
        assert_eq!(a.add(b), b.add(a));
    }
}

#[test]
fn mul_commutes() {
    let pairs: [(Point2DF32, Point2DF32); 3] = [
        (pt(3.0, 5.0), pt(2.0, -4.0)),
        (pt(0.1, -0.3), pt(1.0e20, 7.5)),
        (pt(-0.0, 1.0e-42), pt(0.0, 2.5)),
    ];
    for (a, b) in pairs {
        assert_eq!(a.mul(b), b.mul(a));
    }
}

#[test]
fn add_zero_is_identity() {
    let samples: [Point2DF32; 3] = [
        pt(3.25, -4.5),
        pt(-0.0, 1.0e-42),
        pt(f32::MAX, f32::MIN_POSITIVE),
    ];
    for a in samples {
        assert_eq!(a.add(Point2DF32::default()), a);
    }
}

#[test]
fn sub_self_is_zero() {
    let samples: [Point2DF32; 3] = [
        pt(3.25, -4.5),
        pt(-7.0e-41, 1.0e38),
        pt(1.0, -1.0),
    ];
    for a in samples {
        let d = a.sub(a);
        assert_eq!(d, Point2DF32::default());
        assert_eq!(d.x(), bits(0.0));
        assert_eq!(d.y(), bits(0.0));
    }
}

#[test]
fn nan_point_differs_from_itself() {
    let n = Point2DF32::new(bits(f32::NAN), bits(0.0));
    assert!(n != n);
}

#[test]
fn signed_zero_points_are_equal() {
    let plus = Point2DF32::new(bits(0.0), bits(0.0));
    let minus = Point2DF32::new(bits(-0.0), bits(-0.0));
    assert!(plus == minus);
}

#[test]
fn points_with_distinct_coordinates_differ() {
    assert!(pt(1.0, 2.0) != pt(1.0, 3.0));
    assert!(pt(1.0, 2.0) != pt(-1.0, 2.0));
}

#[test]
fn min_max_stay_within_lane_bounds() {
    let pairs: [(f32, f32); 4] = [(1.0, 3.0), (-2.5, -7.0), (0.0, -0.0), (1.0e38, 5.0e-39)];
    for (x, y) in pairs {
        let a = pt(x, y);
        let b = pt(y, x);
        let lo = a.min(b);
        let hi = a.max(b);
        assert!(f32::from_bits(lo.x()) <= x && f32::from_bits(lo.x()) <= y);
        assert!(f32::from_bits(lo.y()) <= x && f32::from_bits(lo.y()) <= y);
        assert!(f32::from_bits(hi.x()) >= x && f32::from_bits(hi.x()) >= y);
        assert!(f32::from_bits(hi.y()) >= x && f32::from_bits(hi.y()) >= y);
    }
}

#[test]
fn add_concrete() {
    let sum = pt(3.0, 4.0).add(pt(1.0, -2.0));
    assert!(sum == pt(4.0, 2.0));
    assert_eq!(sum.x(), bits(4.0));
    assert_eq!(sum.y(), bits(2.0));
}

#[test]
fn splat_times_point_scales_both_coordinates() {
    let scaled = Point2DF32::splat(bits(2.0)).mul(pt(3.0, 5.0));
    assert_eq!(scaled.x(), bits(6.0));
    assert_eq!(scaled.y(), bits(10.0));
}

#[test]
fn min_concrete() {
    let m = pt(1.0, 5.0).min(pt(3.0, 2.0));
    assert_eq!(m.x(), bits(1.0));
    assert_eq!(m.y(), bits(2.0));
}

#[test]
fn max_concrete() {
    let m = pt(1.0, 5.0).max(pt(3.0, 2.0));
    assert_eq!(m.x(), bits(3.0));
    assert_eq!(m.y(), bits(5.0));
}

#[test]
fn sub_concrete() {
    let d = pt(5.0, 9.0).sub(pt(1.5, 4.0));
    assert_eq!(d.x(), bits(3.5));
    assert_eq!(d.y(), bits(5.0));
}

#[test]
fn splat_sets_both_coordinates() {
    let s = Point2DF32::splat(bits(7.25));
    assert_eq!(s.x(), bits(7.25));
    assert_eq!(s.y(), bits(7.25));
}

#[test]
fn default_is_zero_point() {
    let z = Point2DF32::default();
    assert_eq!(z.x(), bits(0.0));
    assert_eq!(z.y(), bits(0.0));
    assert!(z == pt(0.0, 0.0));
}

#[test]
fn addition_rounds_to_nearest() {
    // 2^24 + 1 is not representable in binary32; ties-to-even keeps 2^24.
    let big = 16777216.0f32;
    let sum = pt(big, -big).add(pt(1.0, -1.0));
    assert_eq!(sum.x(), bits(big));
    assert_eq!(sum.y(), bits(-big));
}

#[test]
fn arithmetic_overflows_to_infinity() {
    let sum = pt(f32::MAX, f32::MAX).add(pt(f32::MAX, 0.0));
    assert_eq!(sum.x(), bits(f32::INFINITY));
    assert_eq!(sum.y(), bits(f32::MAX));
    let product = pt(f32::MAX, -f32::MAX).mul(pt(2.0, 2.0));
    assert_eq!(product.x(), bits(f32::INFINITY));
    assert_eq!(product.y(), bits(f32::NEG_INFINITY));
}

#[test]
fn infinite_operands_propagate() {
    let sum = pt(f32::INFINITY, 1.0).add(pt(1.0, f32::NEG_INFINITY));
    assert_eq!(sum.x(), bits(f32::INFINITY));
    assert_eq!(sum.y(), bits(f32::NEG_INFINITY));
    let diff = pt(f32::INFINITY, 0.0).sub(pt(f32::INFINITY, 0.0));
    assert!(f32::from_bits(diff.x()).is_nan());
}

#[test]
fn min_max_nan_semantics_follow_second_operand_rule() {
    let nan = pt(f32::NAN, 0.0);
    let q = pt(2.0, 3.0);
    // A NaN first operand never compares below, so the second operand returns.
    assert_eq!(nan.min(q).x(), bits(2.0));
    assert_eq!(nan.max(q).x(), bits(2.0));
    // A NaN second operand returns as is.
    assert!(f32::from_bits(q.min(nan).x()).is_nan());
    assert!(f32::from_bits(q.max(nan).x()).is_nan());
}

#[test]
fn min_of_signed_zeros_returns_second_operand() {
    // The two zeros compare equal, so neither is below the other and the
    // second operand comes back in both directions.
    let m = pt(-0.0, 0.0).min(pt(0.0, -0.0));
    assert_eq!(m.x(), bits(0.0));
    assert_eq!(m.y(), bits(-0.0));
}
