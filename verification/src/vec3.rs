//! The vector type: three fixed-point components, used both as points and
//! as free directions, with its exact integer model.

use vstd::prelude::*;
use crate::math::{
    SCALE, SCALAR_MAX, ZERO_TRESHOLD, abs_i, clamp_s, fxdiv, fxmul, in_range, is_sqrt, sqrt_i,
    tdiv, clamp_i128, div_trunc, fx_div, fx_mul, isqrt, mul_wide, lemma_abs_mul_le, lemma_sqrt_of,
};

verus! {

/// Mathematical model of a vector: three unbounded integer raw components.
pub struct Vec3 {
    pub x: int,
    pub y: int,
    pub z: int,
}

/// All three model components lie in the scalar range.
pub open spec fn vec_in_range(v: Vec3) -> bool {
    in_range(v.x) && in_range(v.y) && in_range(v.z)
}

/// Componentwise construction, saturating each component.
pub open spec fn spec_new(x: int, y: int, z: int) -> Vec3 {
    Vec3 { x: clamp_s(x), y: clamp_s(y), z: clamp_s(z) }
}

/// The zero vector.
pub open spec fn spec_zero() -> Vec3 {
    Vec3 { x: 0, y: 0, z: 0 }
}

/// Componentwise saturating sum.
pub open spec fn spec_add(a: Vec3, b: Vec3) -> Vec3 {
    Vec3 { x: clamp_s(a.x + b.x), y: clamp_s(a.y + b.y), z: clamp_s(a.z + b.z) }
}

/// Componentwise saturating difference.
pub open spec fn spec_sub(a: Vec3, b: Vec3) -> Vec3 {
    Vec3 { x: clamp_s(a.x - b.x), y: clamp_s(a.y - b.y), z: clamp_s(a.z - b.z) }
}

/// Componentwise fixed-point product.
pub open spec fn spec_mul(a: Vec3, b: Vec3) -> Vec3 {
    Vec3 { x: fxmul(a.x, b.x), y: fxmul(a.y, b.y), z: fxmul(a.z, b.z) }
}

/// Componentwise fixed-point quotient.
pub open spec fn spec_div(a: Vec3, b: Vec3) -> Vec3 {
    Vec3 { x: fxdiv(a.x, b.x), y: fxdiv(a.y, b.y), z: fxdiv(a.z, b.z) }
}

/// Saturating sum of a scalar into every component.
pub open spec fn spec_add_s(a: Vec3, t: int) -> Vec3 {
    Vec3 { x: clamp_s(a.x + t), y: clamp_s(a.y + t), z: clamp_s(a.z + t) }
}

/// Saturating difference of a scalar from every component.
pub open spec fn spec_sub_s(a: Vec3, t: int) -> Vec3 {
    Vec3 { x: clamp_s(a.x - t), y: clamp_s(a.y - t), z: clamp_s(a.z - t) }
}

/// Every component scaled by a fixed-point factor.
pub open spec fn spec_mul_s(a: Vec3, t: int) -> Vec3 {
    Vec3 { x: fxmul(a.x, t), y: fxmul(a.y, t), z: fxmul(a.z, t) }
}

/// Every component divided by a fixed-point factor.
pub open spec fn spec_div_s(a: Vec3, t: int) -> Vec3 {
    Vec3 { x: fxdiv(a.x, t), y: fxdiv(a.y, t), z: fxdiv(a.z, t) }
}

/// Componentwise negation, saturating.
pub open spec fn spec_neg(a: Vec3) -> Vec3 {
    Vec3 { x: clamp_s(-a.x), y: clamp_s(-a.y), z: clamp_s(-a.z) }
}

/// Componentwise absolute value, saturating.
pub open spec fn spec_abs(a: Vec3) -> Vec3 {
    Vec3 { x: clamp_s(abs_i(a.x)), y: clamp_s(abs_i(a.y)), z: clamp_s(abs_i(a.z)) }
}

/// Componentwise minimum.
pub open spec fn spec_min(a: Vec3, b: Vec3) -> Vec3 {
    Vec3 {
        x: if a.x <= b.x { a.x } else { b.x },
        y: if a.y <= b.y { a.y } else { b.y },
        z: if a.z <= b.z { a.z } else { b.z },
    }
}

/// Componentwise maximum.
pub open spec fn spec_max(a: Vec3, b: Vec3) -> Vec3 {
    Vec3 {
        x: if a.x >= b.x { a.x } else { b.x },
        y: if a.y >= b.y { a.y } else { b.y },
        z: if a.z >= b.z { a.z } else { b.z },
    }
}

/// Dot product: exact sum of raw products, one truncating rescale, saturated.
pub open spec fn spec_dot(a: Vec3, b: Vec3) -> int {
    clamp_s(tdiv(a.x * b.x + a.y * b.y + a.z * b.z, SCALE as int))
}

/// Cross product: each component an exact difference of raw products,
/// rescaled once and saturated.
pub open spec fn spec_cross(a: Vec3, b: Vec3) -> Vec3 {
    Vec3 {
        x: clamp_s(tdiv(a.y * b.z - a.z * b.y, SCALE as int)),
        y: clamp_s(tdiv(a.z * b.x - a.x * b.z, SCALE as int)),
        z: clamp_s(tdiv(a.x * b.y - a.y * b.x, SCALE as int)),
    }
}

/// Squared magnitude, in raw units.
pub open spec fn spec_sqr_magnitude(v: Vec3) -> int {
    spec_dot(v, v)
}

/// Magnitude: the integer square root of the squared magnitude brought
/// back to raw units.
pub open spec fn spec_magnitude(v: Vec3) -> int {
    sqrt_i(spec_sqr_magnitude(v) * (SCALE as int))
}

/// Two points within the zero threshold of one another.
pub open spec fn spec_same_as(a: Vec3, b: Vec3) -> bool {
    spec_sqr_magnitude(spec_sub(b, a)) < ZERO_TRESHOLD as int
}

/// Safe normalization: the zero vector below the zero threshold, else each
/// component divided by the magnitude.
pub open spec fn spec_normalize(v: Vec3) -> Vec3 {
    let m: int = spec_magnitude(v);
    if m < ZERO_TRESHOLD as int {
        spec_zero()
    } else {
        Vec3 { x: fxdiv(v.x, m), y: fxdiv(v.y, m), z: fxdiv(v.z, m) }
    }
}

/// Interpolation parameter of the point closest to `p` on the line through
/// `from` and `to` (raw fixed-point; not clamped to the segment).
pub open spec fn spec_project(p: Vec3, from: Vec3, to: Vec3) -> int {
    let diff: Vec3 = spec_sub(to, from);
    fxdiv(spec_dot(spec_sub(p, from), diff), spec_sqr_magnitude(diff))
}

/// Evaluation of the line through `from` and `to` at parameter `t`.
pub open spec fn spec_unproject(from: Vec3, to: Vec3, t: int) -> Vec3 {
    let diff: Vec3 = spec_sub(to, from);
    spec_add(from, spec_mul_s(diff, t))
}

/// Absolute-difference equality of two raw scalars within `e`.
pub open spec fn spec_abs_diff_eq_s(x: int, y: int, e: int) -> bool {
    abs_i(x - y) <= e
}

/// Componentwise absolute-difference equality within `e`.
pub open spec fn spec_abs_diff_eq(a: Vec3, b: Vec3, e: int) -> bool {
    spec_abs_diff_eq_s(a.x, b.x, e) && spec_abs_diff_eq_s(a.y, b.y, e) && spec_abs_diff_eq_s(
        a.z,
        b.z,
        e,
    )
}

/// Relative equality of two raw scalars: within `e` absolutely, or within
/// the fraction `mr` of the larger magnitude.
pub open spec fn spec_relative_eq_s(x: int, y: int, e: int, mr: int) -> bool {
    abs_i(x - y) <= e || abs_i(x - y) <= fxmul(
        mr,
        if abs_i(x) >= abs_i(y) {
            abs_i(x)
        } else {
            abs_i(y)
        },
    )
}

/// Componentwise relative equality.
pub open spec fn spec_relative_eq(a: Vec3, b: Vec3, e: int, mr: int) -> bool {
    spec_relative_eq_s(a.x, b.x, e, mr) && spec_relative_eq_s(a.y, b.y, e, mr)
        && spec_relative_eq_s(a.z, b.z, e, mr)
}

/// Units-in-last-place equality of two raw scalars: within `e` absolutely,
/// or within `mu` representable steps (one raw unit each).
pub open spec fn spec_ulps_eq_s(x: int, y: int, e: int, mu: int) -> bool {
    abs_i(x - y) <= e || abs_i(x - y) <= mu
}

/// Componentwise units-in-last-place equality.
pub open spec fn spec_ulps_eq(a: Vec3, b: Vec3, e: int, mu: int) -> bool {
    spec_ulps_eq_s(a.x, b.x, e, mu) && spec_ulps_eq_s(a.y, b.y, e, mu) && spec_ulps_eq_s(
        a.z,
        b.z,
        e,
        mu,
    )
}

/// The dot product of a vector with itself is a saturated non-negative value.
pub proof fn lemma_sqr_nonneg(v: Vec3)
    ensures
        0 <= spec_sqr_magnitude(v) <= SCALAR_MAX as int,
{
    assert(v.x * v.x >= 0) by (nonlinear_arith);
    assert(v.y * v.y >= 0) by (nonlinear_arith);
    assert(v.z * v.z >= 0) by (nonlinear_arith);
}

/// A three-component fixed-point vector or point.
#[derive(Debug, Clone, Copy, PartialEq, Eq, Structural)]
pub struct NavVec3 {
    x: i64,
    y: i64,
    z: i64,
}

impl View for NavVec3 {
    type V = Vec3;

    closed spec fn view(&self) -> Vec3 {
        Vec3 { x: self.x as int, y: self.y as int, z: self.z as int }
    }
}

impl Default for NavVec3 {
    /// The zero vector.
    fn default() -> (r: Self)
        ensures
            r@ == spec_zero(),
    {
        Self { x: 0, y: 0, z: 0 }
    }
}

impl NavVec3 {
    #[verifier::type_invariant]
    spec fn inv(self) -> bool {
        vec_in_range(self@)
    }

    pub fn new(x: i64, y: i64, z: i64) -> (r: Self)
        ensures
            r@ == spec_new(x as int, y as int, z as int),
    {
        Self { x: clamp_i128(x as i128), y: clamp_i128(y as i128), z: clamp_i128(z as i128) }
    }

    /// First component, raw.
    pub fn x(self) -> (r: i64)
        ensures
            r as int == self@.x,
    {
        self.x
    }

    /// Second component, raw.
    pub fn y(self) -> (r: i64)
        ensures
            r as int == self@.y,
    {
        self.y
    }

    /// Third component, raw.
    pub fn z(self) -> (r: i64)
        ensures
            r as int == self@.z,
    {
        self.z
    }

    /// Component by index: 0, 1, 2 map to x, y, z; anything else is a
    /// caller bug and is ruled out.
    pub fn nth(self, index: usize) -> (r: i64)
        requires
            index < 3,
        ensures
            index == 0 ==> r as int == self@.x,
            index == 1 ==> r as int == self@.y,
            index == 2 ==> r as int == self@.z,
    {
        match index {
            0 => self.x,
            1 => self.y,
            2 => self.z,
            _ => 0,
        }
    }

    /// Write a component by index: 0, 1, 2 map to x, y, z; anything else is
    /// a caller bug and is ruled out.
    pub fn set_nth(&mut self, index: usize, value: i64)
        requires
            index < 3,
        ensures
            index == 0 ==> final(self)@ == (Vec3 { x: clamp_s(value as int), ..old(self)@ }),
            index == 1 ==> final(self)@ == (Vec3 { y: clamp_s(value as int), ..old(self)@ }),
            index == 2 ==> final(self)@ == (Vec3 { z: clamp_s(value as int), ..old(self)@ }),
    {
        proof {
            use_type_invariant(&*self);
        }
        let v: i64 = clamp_i128(value as i128);
        match index {
            0 => {
                self.x = v;
            },
            1 => {
                self.y = v;
            },
            2 => {
                self.z = v;
            },
            _ => {},
        }
    }

    /// The spatial dimensionality of the point type.
    pub fn dimensions() -> (r: usize)
        ensures
            r == 3,
    {
        3
    }

    /// All three components set to the same value.
    pub fn from_value(value: i64) -> (r: Self)
        ensures
            r@ == spec_new(value as int, value as int, value as int),
    {
        Self::new(value, value, value)
    }

    /// Componentwise sum.
    pub fn add(self, other: Self) -> (r: Self)
        ensures
            r@ == spec_add(self@, other@),
    {
        Self {
            x: clamp_i128(self.x as i128 + other.x as i128),
            y: clamp_i128(self.y as i128 + other.y as i128),
            z: clamp_i128(self.z as i128 + other.z as i128),
        }
    }

    /// The scalar added to every component.
    pub fn add_scalar(self, other: i64) -> (r: Self)
        ensures
            r@ == spec_add_s(self@, other as int),
    {
        Self {
            x: clamp_i128(self.x as i128 + other as i128),
            y: clamp_i128(self.y as i128 + other as i128),
            z: clamp_i128(self.z as i128 + other as i128),
        }
    }

    /// Componentwise difference.
    pub fn sub(self, other: Self) -> (r: Self)
        ensures
            r@ == spec_sub(self@, other@),
    {
        Self {
            x: clamp_i128(self.x as i128 - other.x as i128),
            y: clamp_i128(self.y as i128 - other.y as i128),
            z: clamp_i128(self.z as i128 - other.z as i128),
        }
    }

    /// The scalar subtracted from every component.
    pub fn sub_scalar(self, other: i64) -> (r: Self)
        ensures
            r@ == spec_sub_s(self@, other as int),
    {
        Self {
            x: clamp_i128(self.x as i128 - other as i128),
            y: clamp_i128(self.y as i128 - other as i128),
            z: clamp_i128(self.z as i128 - other as i128),
        }
    }

    /// Componentwise fixed-point product.
    pub fn mul(self, other: Self) -> (r: Self)
        ensures
            r@ == spec_mul(self@, other@),
    {
        Self {
            x: fx_mul(self.x, other.x),
            y: fx_mul(self.y, other.y),
            z: fx_mul(self.z, other.z),
        }
    }

    /// Every component scaled by a fixed-point factor.
    pub fn mul_scalar(self, other: i64) -> (r: Self)
        ensures
            r@ == spec_mul_s(self@, other as int),
    {
        Self { x: fx_mul(self.x, other), y: fx_mul(self.y, other), z: fx_mul(self.z, other) }
    }

    /// Componentwise fixed-point quotient.
    pub fn div(self, other: Self) -> (r: Self)
        ensures
            r@ == spec_div(self@, other@),
    {
        Self {
            x: fx_div(self.x, other.x),
            y: fx_div(self.y, other.y),
            z: fx_div(self.z, other.z),
        }
    }

    /// Every component divided by a fixed-point factor.
    pub fn div_scalar(self, other: i64) -> (r: Self)
        ensures
            r@ == spec_div_s(self@, other as int),
    {
        Self { x: fx_div(self.x, other), y: fx_div(self.y, other), z: fx_div(self.z, other) }
    }

    /// Componentwise negation.
    pub fn neg(self) -> (r: Self)
        ensures
            r@ == spec_neg(self@),
    {
        Self {
            x: clamp_i128(-(self.x as i128)),
            y: clamp_i128(-(self.y as i128)),
            z: clamp_i128(-(self.z as i128)),
        }
    }

    /// Componentwise absolute value.
    pub fn abs(self) -> (r: Self)
        ensures
            r@ == spec_abs(self@),
    {
        Self {
            x: if self.x >= 0 {
                clamp_i128(self.x as i128)
            } else {
                clamp_i128(-(self.x as i128))
            },
            y: if self.y >= 0 {
                clamp_i128(self.y as i128)
            } else {
                clamp_i128(-(self.y as i128))
            },
            z: if self.z >= 0 {
                clamp_i128(self.z as i128)
            } else {
                clamp_i128(-(self.z as i128))
            },
        }
    }

    /// Componentwise minimum.
    pub fn min(self, other: Self) -> (r: Self)
        ensures
            r@ == spec_min(self@, other@),
    {
        proof {
            use_type_invariant(&self);
            use_type_invariant(&other);
        }
        Self {
            x: if self.x <= other.x { self.x } else { other.x },
            y: if self.y <= other.y { self.y } else { other.y },
            z: if self.z <= other.z { self.z } else { other.z },
        }
    }

    /// Componentwise maximum.
    pub fn max(self, other: Self) -> (r: Self)
        ensures
            r@ == spec_max(self@, other@),
    {
        proof {
            use_type_invariant(&self);
            use_type_invariant(&other);
        }
        Self {
            x: if self.x >= other.x { self.x } else { other.x },
            y: if self.y >= other.y { self.y } else { other.y },
            z: if self.z >= other.z { self.z } else { other.z },
        }
    }

    /// Dot product.
    pub fn dot(self, other: Self) -> (r: i64)
        ensures
            r as int == spec_dot(self@, other@),
    {
        proof {
            use_type_invariant(&self);
            use_type_invariant(&other);
            lemma_abs_mul_le(self@.x, other@.x, SCALAR_MAX as int);
            lemma_abs_mul_le(self@.y, other@.y, SCALAR_MAX as int);
            lemma_abs_mul_le(self@.z, other@.z, SCALAR_MAX as int);
        }
        let p: i128 = mul_wide(self.x, other.x) + mul_wide(self.y, other.y) + mul_wide(
            self.z,
            other.z,
        );
        clamp_i128(div_trunc(p, SCALE as i128))
    }

    /// Cross product.
    pub fn cross(self, other: Self) -> (r: Self)
        ensures
            r@ == spec_cross(self@, other@),
    {
        proof {
            use_type_invariant(&self);
            use_type_invariant(&other);
            lemma_abs_mul_le(self@.x, other@.x, SCALAR_MAX as int);
            lemma_abs_mul_le(self@.x, other@.y, SCALAR_MAX as int);
            lemma_abs_mul_le(self@.x, other@.z, SCALAR_MAX as int);
            lemma_abs_mul_le(self@.y, other@.x, SCALAR_MAX as int);
            lemma_abs_mul_le(self@.y, other@.z, SCALAR_MAX as int);
            lemma_abs_mul_le(self@.z, other@.x, SCALAR_MAX as int);
            lemma_abs_mul_le(self@.z, other@.y, SCALAR_MAX as int);
        }
        let cx: i128 = mul_wide(self.y, other.z) - mul_wide(self.z, other.y);
        let cy: i128 = mul_wide(self.z, other.x) - mul_wide(self.x, other.z);
        let cz: i128 = mul_wide(self.x, other.y) - mul_wide(self.y, other.x);
        Self {
            x: clamp_i128(div_trunc(cx, SCALE as i128)),
            y: clamp_i128(div_trunc(cy, SCALE as i128)),
            z: clamp_i128(div_trunc(cz, SCALE as i128)),
        }
    }

    /// Squared magnitude.
    pub fn sqr_magnitude(self) -> (r: i64)
        ensures
            r as int == spec_sqr_magnitude(self@),
    {
        self.dot(self)
    }

    /// Magnitude.
    pub fn magnitude(self) -> (r: i64)
        ensures
            r as int == spec_magnitude(self@),
            0 <= r <= SCALAR_MAX,
    {
        let m2: i64 = self.sqr_magnitude();
        proof {
            lemma_sqr_nonneg(self@);
            assert((m2 as u128) * (SCALE as u128) <= 140737488355328u128 * 65536u128)
                by (nonlinear_arith)
                requires
                    0 <= m2 <= 140737488355328i64,
            ;
        }
        let n: u128 = (m2 as u128) * (SCALE as u128);
        let r: u128 = isqrt(n);
        proof {
            lemma_sqrt_of(n as int, r as int);
            assert(r as int <= SCALAR_MAX as int) by (nonlinear_arith)
                requires
                    is_sqrt(n as int, r as int),
                    n as int <= 140737488355328int * 65536int,
            ;
        }
        r as i64
    }

    /// Two points within the zero threshold of one another.
    pub fn same_as(self, other: Self) -> (r: bool)
        ensures
            r == spec_same_as(self@, other@),
    {
        other.sub(self).sqr_magnitude() < ZERO_TRESHOLD
    }

    /// Safe normalization: the zero vector for degenerate input, never a
    /// division by a near-zero magnitude.
    pub fn normalize(self) -> (r: Self)
        ensures
            r@ == spec_normalize(self@),
    {
        let len: i64 = self.magnitude();
        if len < ZERO_TRESHOLD {
            Self { x: 0, y: 0, z: 0 }
        } else {
            Self { x: fx_div(self.x, len), y: fx_div(self.y, len), z: fx_div(self.z, len) }
        }
    }

    /// Interpolation parameter of the closest point to `self` on the line
    /// through `from` and `to`; not clamped to the segment.
    pub fn project(self, from: Self, to: Self) -> (r: i64)
        ensures
            r as int == spec_project(self@, from@, to@),
    {
        let diff: Self = to.sub(from);
        fx_div(self.sub(from).dot(diff), diff.sqr_magnitude())
    }

    /// The line through `from` and `to` evaluated at parameter `t`.
    pub fn unproject(from: Self, to: Self, t: i64) -> (r: Self)
        ensures
            r@ == spec_unproject(from@, to@, t as int),
    {
        let diff: Self = to.sub(from);
        from.add(diff.mul_scalar(t))
    }

    /// Default absolute tolerance: one raw unit.
    pub fn default_epsilon() -> (r: i64)
        ensures
            r == 1,
    {
        1
    }

    /// Default relative tolerance: one raw unit as a fixed-point fraction.
    pub fn default_max_relative() -> (r: i64)
        ensures
            r == 1,
    {
        1
    }

    /// Default tolerance in representable steps.
    pub fn default_max_ulps() -> (r: u32)
        ensures
            r == 4,
    {
        4
    }

    /// Componentwise absolute-difference equality within `epsilon`.
    pub fn abs_diff_eq(&self, other: &Self, epsilon: i64) -> (r: bool)
        ensures
            r == spec_abs_diff_eq(self@, other@, epsilon as int),
    {
        abs_diff_eq_s(self.x, other.x, epsilon) && abs_diff_eq_s(self.y, other.y, epsilon)
            && abs_diff_eq_s(self.z, other.z, epsilon)
    }

    /// Componentwise relative equality: absolutely within `epsilon`, or
    /// within the fraction `max_relative` of the larger magnitude.
    pub fn relative_eq(&self, other: &Self, epsilon: i64, max_relative: i64) -> (r: bool)
        ensures
            r == spec_relative_eq(self@, other@, epsilon as int, max_relative as int),
    {
        proof {
            use_type_invariant(&*self);
            use_type_invariant(&*other);
        }
        relative_eq_s(self.x, other.x, epsilon, max_relative) && relative_eq_s(
            self.y,
            other.y,
            epsilon,
            max_relative,
        ) && relative_eq_s(self.z, other.z, epsilon, max_relative)
    }

    /// Componentwise equality within `max_ulps` representable steps, after
    /// an absolute check within `epsilon`.
    pub fn ulps_eq(&self, other: &Self, epsilon: i64, max_ulps: u32) -> (r: bool)
        ensures
            r == spec_ulps_eq(self@, other@, epsilon as int, max_ulps as int),
    {
        ulps_eq_s(self.x, other.x, epsilon, max_ulps) && ulps_eq_s(
            self.y,
            other.y,
            epsilon,
            max_ulps,
        ) && ulps_eq_s(self.z, other.z, epsilon, max_ulps)
    }
}

/// Absolute-difference equality of two raw scalars.
fn abs_diff_eq_s(x: i64, y: i64, e: i64) -> (r: bool)
    ensures
        r == spec_abs_diff_eq_s(x as int, y as int, e as int),
{
    let d: i128 = x as i128 - y as i128;
    let ad: i128 = if d >= 0 {
        d
    } else {
        -d
    };
    ad <= e as i128
}

/// Relative equality of two raw scalars.
fn relative_eq_s(x: i64, y: i64, e: i64, mr: i64) -> (r: bool)
    requires
        in_range(x as int),
        in_range(y as int),
    ensures
        r == spec_relative_eq_s(x as int, y as int, e as int, mr as int),
{
    let d: i128 = x as i128 - y as i128;
    let ad: i128 = if d >= 0 {
        d
    } else {
        -d
    };
    if ad <= e as i128 {
        true
    } else {
        let ax: i128 = if x >= 0 {
            x as i128
        } else {
            -(x as i128)
        };
        let ay: i128 = if y >= 0 {
            y as i128
        } else {
            -(y as i128)
        };
        let m: i128 = if ax >= ay {
            ax
        } else {
            ay
        };
        let t: i64 = fx_mul(mr, clamp_i128(m));
        proof {
            assert(clamp_s(m as int) == m as int);
        }
        ad <= t as i128
    }
}

/// Units-in-last-place equality of two raw scalars.
fn ulps_eq_s(x: i64, y: i64, e: i64, mu: u32) -> (r: bool)
    ensures
        r == spec_ulps_eq_s(x as int, y as int, e as int, mu as int),
{
    let d: i128 = x as i128 - y as i128;
    let ad: i128 = if d >= 0 {
        d
    } else {
        -d
    };
    ad <= e as i128 || ad <= mu as i128
}

} // verus!
