//! Tests of the vector algebra core: componentwise arithmetic, dot and
//! cross products, magnitude, normalization, projection.

use navmesh::{NavVec3, SCALAR_MAX, SCALE};

/// Raw fixed-point value of a real number.
fn s(x: f64) -> i64 {
    (x * SCALE as f64).round() as i64
}

fn v(x: f64, y: f64, z: f64) -> NavVec3 {
    NavVec3::new(s(x), s(y), s(z))
}

fn assert_near(a: i64, b: i64, tol: i64) {
    assert!((a - b).abs() <= tol, "{} vs {} (tol {})", a, b, tol);
}

fn assert_vec_near(a: NavVec3, b: NavVec3, tol: i64) {
    assert_near(a.x(), b.x(), tol);
    assert_near(a.y(), b.y(), tol);
    assert_near(a.z(), b.z(), tol);
}

#[test]
fn new_keeps_components() {
    let p = NavVec3::new(10, -20, 30);
    assert_eq!(p.x(), 10);
    assert_eq!(p.y(), -20);
    assert_eq!(p.z(), 30);
}

#[test]
fn new_saturates_out_of_range() {
    let p = NavVec3::new(i64::MAX, i64::MIN, 0);
    assert_eq!(p.x(), SCALAR_MAX);
    assert_eq!(p.y(), -SCALAR_MAX);
    assert_eq!(p.z(), 0);
}

#[test]
fn componentwise_arithmetic() {
    let a = v(1.0, 2.0, 3.0);
    let b = v(0.5, -1.0, 2.0);
    assert_vec_near(a.add(b), v(1.5, 1.0, 5.0), 0);
    assert_vec_near(a.sub(b), v(0.5, 3.0, 1.0), 0);
    assert_vec_near(a.mul(b), v(0.5, -2.0, 6.0), 1);
    assert_vec_near(a.div(b), v(2.0, -2.0, 1.5), 1);
    assert_vec_near(a.neg(), v(-1.0, -2.0, -3.0), 0);
    assert_vec_near(a.add_scalar(s(1.0)), v(2.0, 3.0, 4.0), 0);
    assert_vec_near(a.sub_scalar(s(1.0)), v(0.0, 1.0, 2.0), 0);
    assert_vec_near(a.mul_scalar(s(2.0)), v(2.0, 4.0, 6.0), 0);
    assert_vec_near(a.div_scalar(s(2.0)), v(0.5, 1.0, 1.5), 0);
}

#[test]
fn division_by_zero_saturates() {
    let a = v(1.0, -1.0, 0.0);
    let q = a.div_scalar(0);
    assert_eq!(q.x(), SCALAR_MAX);
    assert_eq!(q.y(), -SCALAR_MAX);
    assert_eq!(q.z(), 0);
}

#[test]
fn min_max_abs() {
    let a = v(1.0, -2.0, 3.0);
    let b = v(0.0, 5.0, -4.0);
    assert_vec_near(a.min(b), v(0.0, -2.0, -4.0), 0);
    assert_vec_near(a.max(b), v(1.0, 5.0, 3.0), 0);
    assert_vec_near(a.abs(), v(1.0, 2.0, 3.0), 0);
}

#[test]
fn dot_product_exact() {
    let a = v(1.0, 2.0, 3.0);
    let b = v(4.0, -5.0, 6.0);
    assert_eq!(a.dot(b), s(4.0 - 10.0 + 18.0));
}

#[test]
fn dot_is_commutative() {
    let a = v(1.25, -2.5, 3.0);
    let b = v(-0.75, 4.0, 1.5);
    assert_eq!(a.dot(b), b.dot(a));
}

#[test]
fn cross_product_exact() {
    let x = v(1.0, 0.0, 0.0);
    let y = v(0.0, 1.0, 0.0);
    let c = x.cross(y);
    assert_eq!((c.x(), c.y(), c.z()), (0, 0, s(1.0)));
}

#[test]
fn cross_is_anticommutative() {
    let a = v(1.25, -2.5, 3.0);
    let b = v(-0.75, 4.0, 1.5);
    let ab = a.cross(b);
    let ba_neg = b.cross(a).neg();
    assert_eq!((ab.x(), ab.y(), ab.z()), (ba_neg.x(), ba_neg.y(), ba_neg.z()));
}

#[test]
fn magnitude_three_four_five() {
    let a = v(3.0, 4.0, 0.0);
    assert_eq!(a.sqr_magnitude(), s(25.0));
    assert_eq!(a.magnitude(), s(5.0));
}

#[test]
fn normalize_has_unit_magnitude() {
    for (x, y, z) in [(3.0, 4.0, 0.0), (1.0, 1.0, 1.0), (-2.0, 0.5, 7.0), (0.1, -0.2, 0.3)] {
        let n = v(x, y, z).normalize();
        assert_near(n.magnitude(), s(1.0), 16);
    }
}

#[test]
fn normalize_degenerate_is_zero() {
    let tiny = NavVec3::new(1, 1, 0);
    let n = tiny.normalize();
    assert_eq!((n.x(), n.y(), n.z()), (0, 0, 0));
    let zero = NavVec3::new(0, 0, 0);
    let nz = zero.normalize();
    assert_eq!((nz.x(), nz.y(), nz.z()), (0, 0, 0));
}

#[test]
fn normalize_is_idempotent_within_epsilon() {
    for (x, y, z) in [(3.0, 4.0, 0.0), (1.0, 1.0, 1.0), (-2.0, 0.5, 7.0)] {
        let n1 = v(x, y, z).normalize();
        let n2 = n1.normalize();
        assert_vec_near(n2, n1, 8);
    }
}

#[test]
fn same_as_within_threshold() {
    let a = v(1.0, 2.0, 3.0);
    let b = NavVec3::new(a.x() + 1, a.y(), a.z());
    assert!(a.same_as(b));
    assert!(!a.same_as(v(1.1, 2.0, 3.0)));
}

#[test]
fn project_unproject_round_trip_on_line() {
    let from = v(0.0, 0.0, 0.0);
    let to = v(1.0, 0.0, 0.0);
    let p = v(0.5, 3.0, 0.0);
    let on_line = v(0.5, 0.0, 0.0);
    let t = p.project(from, to);
    assert_eq!(t, s(0.5));
    assert_eq!(on_line.project(from, to), t);
    let back = NavVec3::unproject(from, to, t);
    assert_eq!((back.x(), back.y(), back.z()), (on_line.x(), on_line.y(), on_line.z()));
}

#[test]
fn project_is_not_clamped() {
    let from = v(0.0, 0.0, 0.0);
    let to = v(1.0, 0.0, 0.0);
    assert_eq!(v(2.0, 1.0, 0.0).project(from, to), s(2.0));
    assert_eq!(v(-1.0, 1.0, 0.0).project(from, to), s(-1.0));
}

#[test]
fn indexed_component_access() {
    let mut p = NavVec3::new(7, 8, 9);
    assert_eq!(NavVec3::dimensions(), 3);
    assert_eq!(p.nth(0), 7);
    assert_eq!(p.nth(1), 8);
    assert_eq!(p.nth(2), 9);
    p.set_nth(1, 80);
    assert_eq!(p.nth(1), 80);
    let q = NavVec3::from_value(5);
    assert_eq!((q.x(), q.y(), q.z()), (5, 5, 5));
}

#[test]
fn approximate_equality_adapters() {
    let a = v(1.0, 2.0, 3.0);
    let b = NavVec3::new(a.x() + 1, a.y() - 1, a.z());
    assert!(a.abs_diff_eq(&b, NavVec3::default_epsilon()));
    assert!(!a.abs_diff_eq(&v(1.1, 2.0, 3.0), NavVec3::default_epsilon()));
    assert!(a.ulps_eq(&b, 0, NavVec3::default_max_ulps()));
    assert!(!a.ulps_eq(&v(1.1, 2.0, 3.0), 0, NavVec3::default_max_ulps()));
    // 1.0 vs 1.0004 is within a relative tolerance of 1/1024.
    let big = v(1.0, 0.0, 0.0);
    let near = v(1.0004, 0.0, 0.0);
    assert!(big.relative_eq(&near, 0, SCALE / 1024));
    assert!(!big.relative_eq(&v(1.01, 0.0, 0.0), 0, SCALE / 1024));
}

#[test]
fn default_is_zero() {
    let d = NavVec3::default();
    assert_eq!((d.x(), d.y(), d.z()), (0, 0, 0));
}
