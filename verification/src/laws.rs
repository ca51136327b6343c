//! Algebraic laws of the vector core, proved once and for all over the
//! integer model.

use vstd::prelude::*;
use crate::math::{ZERO_TRESHOLD, clamp_s, tdiv};
use crate::vec3::{Vec3, spec_cross, spec_dot, spec_magnitude, spec_neg, spec_normalize, spec_zero};

verus! {

/// Saturation is an odd function.
pub proof fn lemma_clamp_odd(a: int)
    ensures
        clamp_s(-a) == -clamp_s(a),
{
}

/// Truncating division is odd in its dividend.
pub proof fn lemma_tdiv_odd(a: int, b: int)
    requires
        b != 0,
    ensures
        tdiv(-a, b) == -tdiv(a, b),
{
}

/// The dot product is commutative.
pub proof fn lemma_dot_commutative(a: Vec3, b: Vec3)
    ensures
        spec_dot(a, b) == spec_dot(b, a),
{
    assert(a.x * b.x == b.x * a.x) by (nonlinear_arith);
    assert(a.y * b.y == b.y * a.y) by (nonlinear_arith);
    assert(a.z * b.z == b.z * a.z) by (nonlinear_arith);
}

/// The cross product is anticommutative: swapping the arguments negates
/// every component exactly, saturation included.
pub proof fn lemma_cross_anticommutative(a: Vec3, b: Vec3)
    ensures
        spec_cross(a, b) == spec_neg(spec_cross(b, a)),
{
    let s: int = crate::math::SCALE as int;
    assert(a.y * b.z == b.z * a.y && a.z * b.y == b.y * a.z && a.z * b.x == b.x * a.z && a.x * b.z
        == b.z * a.x && a.x * b.y == b.y * a.x && a.y * b.x == b.x * a.y) by (nonlinear_arith);
    lemma_tdiv_odd(b.y * a.z - b.z * a.y, s);
    lemma_tdiv_odd(b.z * a.x - b.x * a.z, s);
    lemma_tdiv_odd(b.x * a.y - b.y * a.x, s);
    lemma_clamp_odd(tdiv(b.y * a.z - b.z * a.y, s));
    lemma_clamp_odd(tdiv(b.z * a.x - b.x * a.z, s));
    lemma_clamp_odd(tdiv(b.x * a.y - b.y * a.x, s));
}

/// Safe normalization of a degenerate vector: below the zero threshold
/// the result is exactly the zero vector, never a near-zero division.
pub proof fn lemma_normalize_degenerate(v: Vec3)
    requires
        spec_magnitude(v) < ZERO_TRESHOLD as int,
    ensures
        spec_normalize(v) == spec_zero(),
{
}

/// The zero vector is a fixed point of normalization, so normalizing a
/// degenerate vector twice changes nothing more.
pub proof fn lemma_normalize_zero_fixed_point()
    ensures
        spec_normalize(spec_zero()) == spec_zero(),
{
    crate::math::lemma_sqrt_of(0, 0);
}

/// Above the threshold, normalization really divides by the magnitude.
pub proof fn lemma_normalize_regular(v: Vec3)
    requires
        spec_magnitude(v) >= ZERO_TRESHOLD as int,
    ensures
        spec_normalize(v) == (Vec3 {
            x: crate::math::fxdiv(v.x, spec_magnitude(v)),
            y: crate::math::fxdiv(v.y, spec_magnitude(v)),
            z: crate::math::fxdiv(v.z, spec_magnitude(v)),
        }),
{
}

} // verus!
