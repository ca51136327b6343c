//! Plane and line primitives: signed distance and side tests, ray-vs-plane
//! and ray-vs-segment intersections, and the two-plane intersection line.

use vstd::prelude::*;
use crate::math::{
    SCALE, ZERO_TRESHOLD, abs_i, clamp_s, fxdiv, fxmul, clamp_i128, fx_div, fx_mul,
};
use crate::vec3::{
    NavVec3, Vec3, spec_abs, spec_add, spec_cross, spec_dot, spec_magnitude, spec_mul_s,
    spec_normalize, spec_project, spec_sqr_magnitude, spec_sub, spec_unproject,
};

verus! {

/// The model of an optional point.
pub open spec fn view_opt(o: Option<NavVec3>) -> Option<Vec3> {
    match o {
        Some(p) => Some(p@),
        None => None,
    }
}

/// The model of an optional (point, direction) pair.
pub open spec fn view_opt_pair(o: Option<(NavVec3, NavVec3)>) -> Option<(Vec3, Vec3)> {
    match o {
        Some(p) => Some((p.0@, p.1@)),
        None => None,
    }
}

/// Signed distance from `p` to the plane `(origin, normal)`; metrically
/// meaningful when `normal` has unit length.
pub open spec fn spec_distance_to_plane(p: Vec3, origin: Vec3, normal: Vec3) -> int {
    spec_dot(normal, spec_sub(p, origin))
}

/// Inclusive side test: points within the threshold of the plane count as
/// above, so boundary points are not classified as outside.
pub open spec fn spec_is_above_plane(p: Vec3, origin: Vec3, normal: Vec3) -> bool {
    spec_distance_to_plane(p, origin, normal) > -(ZERO_TRESHOLD as int)
}

/// Orthogonal projection of `p` onto the plane `(origin, normal)`; the
/// supplied normal is normalized internally for the distance, then the raw
/// normal scales the offset.
pub open spec fn spec_project_on_plane(p: Vec3, origin: Vec3, normal: Vec3) -> Vec3 {
    let v: Vec3 = spec_sub(p, origin);
    let n: Vec3 = spec_normalize(normal);
    let d: int = spec_dot(v, n);
    spec_sub(p, spec_mul_s(normal, d))
}

/// Segment-vs-plane intersection: a point only when the segment direction
/// is not near-parallel to the plane and the hit parameter lies within the
/// segment length.
pub open spec fn spec_raycast_plane(from: Vec3, to: Vec3, origin: Vec3, normal: Vec3) -> Option<
    Vec3,
> {
    let dir: Vec3 = spec_normalize(spec_sub(to, from));
    let denom: int = spec_dot(normal, dir);
    if abs_i(denom) > ZERO_TRESHOLD as int {
        let t: int = fxdiv(spec_dot(spec_sub(origin, from), normal), denom);
        if 0 <= t && t <= spec_magnitude(spec_sub(to, from)) {
            Some(spec_add(from, spec_mul_s(dir, t)))
        } else {
            None
        }
    } else {
        None
    }
}

/// Clamped segment-vs-line intersection: the plane hit is converted to a
/// parameter along `(a, b)` and forced into `[0, 1]`.
pub open spec fn spec_raycast_line(from: Vec3, to: Vec3, a: Vec3, b: Vec3, normal: Vec3) -> Option<
    Vec3,
> {
    match spec_raycast_plane(from, to, a, normal) {
        Some(p) => {
            let t0: int = spec_project(p, a, b);
            let t: int = if t0 < 0 {
                0
            } else if t0 > SCALE as int {
                SCALE as int
            } else {
                t0
            };
            Some(spec_unproject(a, b, t))
        },
        None => None,
    }
}

/// Exact segment-vs-line intersection: nothing when the true parameter
/// falls outside `[0, 1]`.
pub open spec fn spec_raycast_line_exact(
    from: Vec3,
    to: Vec3,
    a: Vec3,
    b: Vec3,
    normal: Vec3,
) -> Option<Vec3> {
    match spec_raycast_plane(from, to, a, normal) {
        Some(p) => {
            let t: int = spec_project(p, a, b);
            if 0 <= t && t <= SCALE as int {
                Some(spec_unproject(a, b, t))
            } else {
                None
            }
        },
        None => None,
    }
}

/// Three-way sign with a dead zone: zero within the threshold, else the
/// sign of the value.
pub open spec fn spec_side(v: int) -> int {
    if abs_i(v) < ZERO_TRESHOLD as int {
        0
    } else if v > 0 {
        1
    } else {
        -1
    }
}

/// `a` and `b` lie on strictly opposite sides of the line through
/// `(from, to)` within the plane of `normal`; a point on the line (side
/// zero) counts as neither side.
pub open spec fn spec_is_line_between_points(
    from: Vec3,
    to: Vec3,
    a: Vec3,
    b: Vec3,
    normal: Vec3,
) -> bool {
    let n: Vec3 = spec_cross(spec_sub(to, from), normal);
    let sa: int = spec_side(spec_dot(n, spec_sub(a, from)));
    let sb: int = spec_side(spec_dot(n, spec_sub(b, from)));
    sa != 0 && sb != 0 && sa != sb
}

/// One coordinate of a point on the intersection line of two planes:
/// `(da * na - db * nb) / u`, all fixed-point.
pub open spec fn spec_axis_combo(da: int, na: int, db: int, nb: int, u: int) -> int {
    fxdiv(clamp_s(fxmul(da, na) - fxmul(db, nb)), u)
}

/// The point chosen for the two-plane intersection line, solving along the
/// pair of axes away from the dominant component of the cross product.
pub open spec fn spec_planes_point(u: Vec3, d1: int, d2: int, n1: Vec3, n2: Vec3) -> Vec3 {
    let a: Vec3 = spec_abs(u);
    if a.x > a.y {
        if a.x > a.z {
            Vec3 {
                x: 0,
                y: spec_axis_combo(d2, n1.z, d1, n2.z, u.x),
                z: spec_axis_combo(d1, n2.y, d2, n1.y, u.x),
            }
        } else {
            Vec3 {
                x: spec_axis_combo(d2, n1.y, d1, n2.y, u.z),
                y: spec_axis_combo(d1, n2.x, d2, n1.x, u.z),
                z: 0,
            }
        }
    } else if a.y > a.z {
        Vec3 {
            x: spec_axis_combo(d1, n2.z, d2, n1.z, u.y),
            y: 0,
            z: spec_axis_combo(d2, n1.x, d1, n2.x, u.y),
        }
    } else {
        Vec3 {
            x: spec_axis_combo(d2, n1.y, d1, n2.y, u.z),
            y: spec_axis_combo(d1, n2.x, d2, n1.x, u.z),
            z: 0,
        }
    }
}

/// Intersection line of two planes as (point on the line, unit direction);
/// nothing when the planes are near-parallel.
pub open spec fn spec_planes_intersection(p1: Vec3, n1: Vec3, p2: Vec3, n2: Vec3) -> Option<
    (Vec3, Vec3),
> {
    let u: Vec3 = spec_cross(n1, n2);
    if spec_sqr_magnitude(u) < ZERO_TRESHOLD as int {
        None
    } else {
        let d1: int = -spec_dot(n1, p1);
        let d2: int = -spec_dot(n2, p2);
        Some((spec_planes_point(u, d1, d2, n1, n2), spec_normalize(u)))
    }
}

/// One coordinate of the two-plane intersection point, as executable code.
fn axis_combo(da: i64, na: i64, db: i64, nb: i64, u: i64) -> (r: i64)
    ensures
        r as int == spec_axis_combo(da as int, na as int, db as int, nb as int, u as int),
{
    let m1: i64 = fx_mul(da, na);
    let m2: i64 = fx_mul(db, nb);
    fx_div(clamp_i128(m1 as i128 - m2 as i128), u)
}

impl NavVec3 {
    /// Signed distance from `self` to the plane `(origin, normal)`.
    pub fn distance_to_plane(self, origin: Self, normal: Self) -> (r: i64)
        ensures
            r as int == spec_distance_to_plane(self@, origin@, normal@),
    {
        normal.dot(self.sub(origin))
    }

    /// Inclusive side test against the plane `(origin, normal)`.
    pub fn is_above_plane(self, origin: Self, normal: Self) -> (r: bool)
        ensures
            r == spec_is_above_plane(self@, origin@, normal@),
    {
        self.distance_to_plane(origin, normal) > -ZERO_TRESHOLD
    }

    /// Orthogonal projection of `self` onto the plane `(origin, normal)`.
    pub fn project_on_plane(self, origin: Self, normal: Self) -> (r: Self)
        ensures
            r@ == spec_project_on_plane(self@, origin@, normal@),
    {
        let v: Self = self.sub(origin);
        let n: Self = normal.normalize();
        let d: i64 = v.dot(n);
        self.sub(normal.mul_scalar(d))
    }

    /// Segment-vs-plane intersection.
    pub fn raycast_plane(from: Self, to: Self, origin: Self, normal: Self) -> (r: Option<Self>)
        ensures
            view_opt(r) == spec_raycast_plane(from@, to@, origin@, normal@),
    {
        let dir: Self = to.sub(from).normalize();
        let denom: i64 = normal.dot(dir);
        let adenom: i64 = if denom >= 0 {
            denom
        } else {
            -denom
        };
        if adenom > ZERO_TRESHOLD {
            let t: i64 = fx_div(origin.sub(from).dot(normal), denom);
            if t >= 0 && t <= to.sub(from).magnitude() {
                return Some(from.add(dir.mul_scalar(t)));
            }
        }
        None
    }

    /// Clamped segment-vs-line intersection: always lands on the segment
    /// `(a, b)`, possibly at an endpoint.
    pub fn raycast_line(from: Self, to: Self, a: Self, b: Self, normal: Self) -> (r: Option<Self>)
        ensures
            view_opt(r) == spec_raycast_line(from@, to@, a@, b@, normal@),
    {
        match Self::raycast_plane(from, to, a, normal) {
            Some(p) => {
                let t0: i64 = p.project(a, b);
                let t: i64 = if t0 < 0 {
                    0
                } else if t0 > SCALE {
                    SCALE
                } else {
                    t0
                };
                Some(Self::unproject(a, b, t))
            },
            None => None,
        }
    }

    /// Exact segment-vs-line intersection: nothing when the hit parameter
    /// leaves `[0, 1]`.
    pub fn raycast_line_exact(from: Self, to: Self, a: Self, b: Self, normal: Self) -> (r: Option<
        Self,
    >)
        ensures
            view_opt(r) == spec_raycast_line_exact(from@, to@, a@, b@, normal@),
    {
        match Self::raycast_plane(from, to, a, normal) {
            Some(p) => {
                let t: i64 = p.project(a, b);
                if t >= 0 && t <= SCALE {
                    Some(Self::unproject(a, b, t))
                } else {
                    None
                }
            },
            None => None,
        }
    }

    /// Three-way sign of a scalar with the zero threshold as a dead zone.
    pub fn side(v: i64) -> (r: i8)
        ensures
            r as int == spec_side(v as int),
    {
        if v > -ZERO_TRESHOLD && v < ZERO_TRESHOLD {
            0
        } else if v > 0 {
            1
        } else {
            -1
        }
    }

    /// Whether `a` and `b` lie on strictly opposite sides of the line
    /// through `(from, to)` within the plane of `normal`; a point exactly
    /// on the line counts as neither side and fails the test.
    pub fn is_line_between_points(from: Self, to: Self, a: Self, b: Self, normal: Self) -> (r:
        bool)
        ensures
            r == spec_is_line_between_points(from@, to@, a@, b@, normal@),
    {
        let n: Self = to.sub(from).cross(normal);
        let sa: i8 = Self::side(n.dot(a.sub(from)));
        let sb: i8 = Self::side(n.dot(b.sub(from)));
        sa != 0 && sb != 0 && sa != sb
    }

    /// Intersection line of the planes `(p1, n1)` and `(p2, n2)`, as a
    /// point on the line and the line's unit direction; nothing when the
    /// planes are near-parallel.
    pub fn planes_intersection(p1: Self, n1: Self, p2: Self, n2: Self) -> (r: Option<
        (Self, Self),
    >)
        ensures
            view_opt_pair(r) == spec_planes_intersection(p1@, n1@, p2@, n2@),
    {
        let u: Self = n1.cross(n2);
        if u.sqr_magnitude() < ZERO_TRESHOLD {
            return None;
        }
        let a: Self = u.abs();
        let d1: i64 = -n1.dot(p1);
        let d2: i64 = -n2.dot(p2);
        let p: Self = if a.x() > a.y() {
            if a.x() > a.z() {
                Self::new(
                    0,
                    axis_combo(d2, n1.z(), d1, n2.z(), u.x()),
                    axis_combo(d1, n2.y(), d2, n1.y(), u.x()),
                )
            } else {
                Self::new(
                    axis_combo(d2, n1.y(), d1, n2.y(), u.z()),
                    axis_combo(d1, n2.x(), d2, n1.x(), u.z()),
                    0,
                )
            }
        } else if a.y() > a.z() {
            Self::new(
                axis_combo(d1, n2.z(), d2, n1.z(), u.y()),
                0,
                axis_combo(d2, n1.x(), d1, n2.x(), u.y()),
            )
        } else {
            Self::new(
                axis_combo(d2, n1.y(), d1, n2.y(), u.z()),
                axis_combo(d1, n2.x(), d2, n1.x(), u.z()),
                0,
            )
        };
        Some((p, u.normalize()))
    }
}

} // verus!
