//! Triangle intersection and mesh-edge resolution: segment-vs-triangle
//! containment, and the triangle-vs-triangle clipping that yields the
//! intersection segment together with the edge of the first triangle each
//! endpoint lies on.

use vstd::prelude::*;
use crate::math::{SCALE, ZERO_TRESHOLD};
use crate::plane::{
    spec_distance_to_plane, spec_is_above_plane, spec_project_on_plane, spec_raycast_line_exact,
    spec_raycast_plane,
};
use crate::vec3::{
    NavVec3, Vec3, spec_cross, spec_mul_s, spec_neg, spec_normalize, spec_sqr_magnitude, spec_sub,
};

verus! {

/// Which edge of a triangle an intersection point lies on: the pair of
/// vertex indices (over 0, 1, 2) of that edge, in winding order.
#[derive(Debug, Clone, Copy, PartialEq, Eq, Structural)]
pub struct NavConnection(pub u32, pub u32);

/// An intersection-segment endpoint: the point, and the edge of the first
/// triangle it lies on, when it lies on one.
pub type TriHit = (NavVec3, Option<NavConnection>);

/// The model of an endpoint.
pub type TriHitModel = (Vec3, Option<NavConnection>);

/// The model of a full triangle-triangle intersection: both endpoints and
/// the in-plane clipping direction.
pub type TriSegModel = (TriHitModel, TriHitModel, Vec3);

/// Unit normal of a triangle, from its first two normalized edge tangents.
pub open spec fn spec_tri_normal(a: Vec3, b: Vec3, c: Vec3) -> Vec3 {
    spec_normalize(spec_cross(spec_normalize(spec_sub(b, a)), spec_normalize(spec_sub(c, b))))
}

/// Containment test: `p` is on the inward side of all three edge
/// half-planes of the triangle `(a, b, c)`.
pub open spec fn spec_tri_contains(p: Vec3, a: Vec3, b: Vec3, c: Vec3) -> bool {
    let tab: Vec3 = spec_normalize(spec_sub(b, a));
    let tbc: Vec3 = spec_normalize(spec_sub(c, b));
    let tca: Vec3 = spec_normalize(spec_sub(a, c));
    let n: Vec3 = spec_normalize(spec_cross(tab, tbc));
    let nab: Vec3 = spec_cross(tab, n);
    let nbc: Vec3 = spec_cross(tbc, n);
    let nca: Vec3 = spec_cross(tca, n);
    spec_is_above_plane(p, a, spec_neg(nab)) && spec_is_above_plane(p, b, spec_neg(nbc))
        && spec_is_above_plane(p, c, spec_neg(nca))
}

/// Segment-vs-triangle intersection: the plane contact point when it lies
/// inside the triangle's edge half-planes.
pub open spec fn spec_raycast_triangle(from: Vec3, to: Vec3, a: Vec3, b: Vec3, c: Vec3) -> Option<
    Vec3,
> {
    let n: Vec3 = spec_tri_normal(a, b, c);
    match spec_raycast_plane(from, to, a, n) {
        Some(contact) => if spec_tri_contains(contact, a, b, c) {
            Some(contact)
        } else {
            None
        },
        None => None,
    }
}

/// Gating heuristic: either endpoint of the segment lies inside the
/// triangle's edge half-planes. Deliberately not a rigorous
/// segment-vs-perimeter crossing test; mesh stitching is tuned to it.
pub open spec fn spec_does_line_crosses_triangle(
    from: Vec3,
    to: Vec3,
    a: Vec3,
    b: Vec3,
    c: Vec3,
) -> bool {
    spec_tri_contains(from, a, b, c) || spec_tri_contains(to, a, b, c)
}

/// Two points closer than the zero threshold.
pub open spec fn spec_close(p: Vec3, q: Vec3) -> bool {
    spec_sqr_magnitude(spec_sub(p, q)) < ZERO_TRESHOLD as int
}

/// An optional point as a sequence of zero or one points.
pub open spec fn opt_seq(o: Option<Vec3>) -> Seq<Vec3> {
    match o {
        Some(p) => seq![p],
        None => Seq::empty(),
    }
}

/// The plane-crossing points of the second triangle's three edges against
/// the first triangle's plane, in edge order.
pub open spec fn spec_contacts(a1: Vec3, n1: Vec3, a2: Vec3, b2: Vec3, c2: Vec3) -> Seq<Vec3> {
    opt_seq(spec_raycast_plane(a2, b2, a1, n1)) + opt_seq(spec_raycast_plane(b2, c2, a1, n1))
        + opt_seq(spec_raycast_plane(c2, a2, a1, n1))
}

/// Some later point of the sequence lies within the threshold of `s[i]`.
pub open spec fn spec_has_later_close(s: Seq<Vec3>, i: int) -> bool {
    exists|j: int| i < j < s.len() && spec_close(s[i], s[j])
}

/// Pairwise deduplication from index `i` on: a point is dropped when any
/// later point lies within the threshold of it.
pub open spec fn spec_dedup_from(s: Seq<Vec3>, i: int) -> Seq<Vec3>
    decreases s.len() - i,
{
    if i < 0 || i >= s.len() {
        Seq::empty()
    } else if spec_has_later_close(s, i) {
        spec_dedup_from(s, i + 1)
    } else {
        seq![s[i]] + spec_dedup_from(s, i + 1)
    }
}

/// Pairwise deduplication of the whole sequence.
pub open spec fn spec_dedup(s: Seq<Vec3>) -> Seq<Vec3> {
    spec_dedup_from(s, 0)
}

/// A vertex of the first triangle by index (0, 1, 2 map to a, b, c).
pub open spec fn spec_tri_point(a: Vec3, b: Vec3, c: Vec3, k: int) -> Vec3 {
    if k == 0 {
        a
    } else if k == 1 {
        b
    } else {
        c
    }
}

/// The candidate segment clipped against the first triangle's three edges,
/// each hit tagged with the edge it lies on, in edge order.
pub open spec fn spec_clipped(
    a1: Vec3,
    b1: Vec3,
    c1: Vec3,
    sb: Vec3,
    se: Vec3,
    no: Vec3,
) -> Seq<(Vec3, NavConnection)> {
    opt_conn_seq(spec_raycast_line_exact(a1, b1, sb, se, no), NavConnection(0, 1)) + opt_conn_seq(
        spec_raycast_line_exact(b1, c1, sb, se, no),
        NavConnection(1, 2),
    ) + opt_conn_seq(spec_raycast_line_exact(c1, a1, sb, se, no), NavConnection(2, 0))
}

/// An optional clip point with its edge tag, as a sequence.
pub open spec fn opt_conn_seq(o: Option<Vec3>, conn: NavConnection) -> Seq<(Vec3, NavConnection)> {
    match o {
        Some(p) => seq![(p, conn)],
        None => Seq::empty(),
    }
}

/// Resolution of the edge-clip points into the two endpoints of the final
/// segment: two clips attach both endpoints to edges; one clip pairs the
/// clip point with the farther original candidate on the correct side;
/// none keeps both original candidates; coincident points are degenerate.
pub open spec fn spec_resolve(
    cl: Seq<(Vec3, NavConnection)>,
    sb: Vec3,
    se: Vec3,
    a1: Vec3,
    b1: Vec3,
    c1: Vec3,
    n1: Vec3,
) -> Option<(TriHitModel, TriHitModel)> {
    if cl.len() == 2 {
        if spec_close(cl[1].0, cl[0].0) {
            None
        } else {
            Some(((cl[0].0, Some(cl[0].1)), (cl[1].0, Some(cl[1].1))))
        }
    } else if cl.len() == 1 {
        let p: Vec3 = cl[0].0;
        let conn: NavConnection = cl[0].1;
        let pb: Vec3 = spec_tri_point(a1, b1, c1, conn.0 as int);
        let pe: Vec3 = spec_tri_point(a1, b1, c1, conn.1 as int);
        let n: Vec3 = spec_normalize(spec_cross(spec_sub(pe, pb), n1));
        let db: int = spec_distance_to_plane(sb, pb, n);
        let de: int = spec_distance_to_plane(se, pb, n);
        if db > de {
            if spec_close(p, se) {
                None
            } else {
                Some(((p, Some(conn)), (se, None)))
            }
        } else {
            if spec_close(p, sb) {
                None
            } else {
                Some(((sb, None), (p, Some(conn))))
            }
        }
    } else {
        Some(((sb, None), (se, None)))
    }
}

/// Canonical winding: keep (begin, end) when the clipping normal crossed
/// with the segment direction points up, else swap.
pub open spec fn spec_orient(bb: TriHitModel, ee: TriHitModel, no: Vec3) -> TriSegModel {
    if spec_cross(no, spec_sub(ee.0, bb.0)).z >= 0 {
        (bb, ee, no)
    } else {
        (ee, bb, no)
    }
}

/// How the second triangle's boundary cuts across the first triangle's
/// interior: the clipped intersection segment, each endpoint tagged with
/// the edge of the first triangle it lies on, plus the in-plane clipping
/// direction; nothing when there is no clean transversal crossing.
pub open spec fn spec_triangles_intersection(
    a1: Vec3,
    b1: Vec3,
    c1: Vec3,
    a2: Vec3,
    b2: Vec3,
    c2: Vec3,
) -> Option<TriSegModel> {
    let n1: Vec3 = spec_tri_normal(a1, b1, c1);
    let n2: Vec3 = spec_tri_normal(a2, b2, c2);
    let dd: Seq<Vec3> = spec_dedup(spec_contacts(a1, n1, a2, b2, c2));
    if dd.len() != 2 {
        None
    } else {
        let sb: Vec3 = dd[0];
        let se: Vec3 = dd[1];
        if !spec_does_line_crosses_triangle(sb, se, a1, b1, c1) {
            None
        } else {
            let no: Vec3 = spec_normalize(
                spec_project_on_plane(spec_mul_s(n2, 100 * SCALE as int), a1, n1),
            );
            match spec_resolve(spec_clipped(a1, b1, c1, sb, se, no), sb, se, a1, b1, c1, n1) {
                Some(pair) => Some(spec_orient(pair.0, pair.1, no)),
                None => None,
            }
        }
    }
}

/// The models of a sequence of points.
pub open spec fn vseq(s: Seq<NavVec3>) -> Seq<Vec3> {
    s.map_values(|v: NavVec3| v@)
}

/// The models of a sequence of tagged points.
pub open spec fn cseq(s: Seq<(NavVec3, NavConnection)>) -> Seq<(Vec3, NavConnection)> {
    s.map_values(|t: (NavVec3, NavConnection)| (t.0@, t.1))
}

/// The model of an optional intersection segment.
pub open spec fn view_tri_seg(o: Option<(TriHit, TriHit, NavVec3)>) -> Option<TriSegModel> {
    match o {
        Some(t) => Some((((t.0).0@, (t.0).1), ((t.1).0@, (t.1).1), t.2@)),
        None => None,
    }
}

impl NavVec3 {
    /// Segment-vs-triangle intersection: the contact point with the
    /// triangle's plane when it lies inside all three edge half-planes.
    pub fn raycast_triangle(from: Self, to: Self, a: Self, b: Self, c: Self) -> (r: Option<Self>)
        ensures
            crate::plane::view_opt(r) == spec_raycast_triangle(from@, to@, a@, b@, c@),
    {
        let tab: Self = b.sub(a).normalize();
        let tbc: Self = c.sub(b).normalize();
        let tca: Self = a.sub(c).normalize();
        let n: Self = tab.cross(tbc).normalize();
        match Self::raycast_plane(from, to, a, n) {
            Some(contact) => {
                let nab: Self = tab.cross(n);
                let nbc: Self = tbc.cross(n);
                let nca: Self = tca.cross(n);
                if contact.is_above_plane(a, nab.neg()) && contact.is_above_plane(b, nbc.neg())
                    && contact.is_above_plane(c, nca.neg()) {
                    Some(contact)
                } else {
                    None
                }
            },
            None => None,
        }
    }

    /// Gating heuristic used before edge clipping: either endpoint of the
    /// segment lies inside the triangle's edge half-planes.
    pub fn does_line_crosses_triangle(from: Self, to: Self, a: Self, b: Self, c: Self) -> (r:
        bool)
        ensures
            r == spec_does_line_crosses_triangle(from@, to@, a@, b@, c@),
    {
        let tab: Self = b.sub(a).normalize();
        let tbc: Self = c.sub(b).normalize();
        let tca: Self = a.sub(c).normalize();
        let n: Self = tab.cross(tbc).normalize();
        let nab: Self = tab.cross(n);
        let nbc: Self = tbc.cross(n);
        let nca: Self = tca.cross(n);
        (from.is_above_plane(a, nab.neg()) && from.is_above_plane(b, nbc.neg())
            && from.is_above_plane(c, nca.neg())) || (to.is_above_plane(a, nab.neg())
            && to.is_above_plane(b, nbc.neg()) && to.is_above_plane(c, nca.neg()))
    }

    /// Intersection of the second triangle's boundary with the first
    /// triangle's interior: the clipped segment `(begin, end, clip
    /// direction)`, each endpoint tagged with the edge of the first
    /// triangle to split there, or nothing without a clean crossing.
    #[verifier::rlimit(100)]
    pub fn triangles_intersection(
        a1: Self,
        b1: Self,
        c1: Self,
        a2: Self,
        b2: Self,
        c2: Self,
    ) -> (r: Option<(TriHit, TriHit, NavVec3)>)
        ensures
            view_tri_seg(r) == spec_triangles_intersection(a1@, b1@, c1@, a2@, b2@, c2@),
    {
        let tab1: Self = b1.sub(a1).normalize();
        let tbc1: Self = c1.sub(b1).normalize();
        let n1: Self = tab1.cross(tbc1).normalize();
        let tab2: Self = b2.sub(a2).normalize();
        let tbc2: Self = c2.sub(b2).normalize();
        let n2: Self = tab2.cross(tbc2).normalize();
        let contacts: Vec<Self> = collect_contacts(a1, n1, a2, b2, c2);
        let deduplicated: Vec<Self> = dedup_points(&contacts);
        proof {
            assert(vseq(deduplicated@) == spec_dedup(
                spec_contacts(a1@, n1@, a2@, b2@, c2@),
            ));
        }
        if deduplicated.len() != 2 {
            return None;
        }
        let sb: Self = deduplicated[0];
        let se: Self = deduplicated[1];
        if !Self::does_line_crosses_triangle(sb, se, a1, b1, c1) {
            return None;
        }
        let no: Self = n2.mul_scalar(100 * SCALE).project_on_plane(a1, n1).normalize();
        let clipped: Vec<(Self, NavConnection)> = collect_clipped(a1, b1, c1, sb, se, no);
        let res: Option<(TriHit, TriHit)> = resolve_seg(&clipped, sb, se, a1, b1, c1, n1);
        match res {
            None => None,
            Some((bb, ee)) => {
                let c: Self = no.cross(ee.0.sub(bb.0));
                if c.z() >= 0 {
                    Some((bb, ee, no))
                } else {
                    Some((ee, bb, no))
                }
            },
        }
    }
}

/// The model of an optional endpoint pair, before orientation.
pub open spec fn view_pair(o: Option<(TriHit, TriHit)>) -> Option<(TriHitModel, TriHitModel)> {
    match o {
        Some(t) => Some((((t.0).0@, (t.0).1), ((t.1).0@, (t.1).1))),
        None => None,
    }
}

/// Collects the plane-crossing points of the three edges of the second
/// triangle against the first triangle's plane, in edge order.
fn collect_contacts(a1: NavVec3, n1: NavVec3, a2: NavVec3, b2: NavVec3, c2: NavVec3) -> (r: Vec<
    NavVec3,
>)
    ensures
        vseq(r@) == spec_contacts(a1@, n1@, a2@, b2@, c2@),
{
    let r1: Option<NavVec3> = NavVec3::raycast_plane(a2, b2, a1, n1);
    let r2: Option<NavVec3> = NavVec3::raycast_plane(b2, c2, a1, n1);
    let r3: Option<NavVec3> = NavVec3::raycast_plane(c2, a2, a1, n1);
    let mut contacts: Vec<NavVec3> = Vec::new();
    if let Some(p) = r1 {
        contacts.push(p);
    }
    proof {
        assert(vseq(contacts@) =~= opt_seq(crate::plane::view_opt(r1)));
    }
    if let Some(p) = r2 {
        contacts.push(p);
    }
    proof {
        assert(vseq(contacts@) =~= opt_seq(crate::plane::view_opt(r1)) + opt_seq(
            crate::plane::view_opt(r2),
        ));
    }
    if let Some(p) = r3 {
        contacts.push(p);
    }
    proof {
        assert(vseq(contacts@) =~= opt_seq(crate::plane::view_opt(r1)) + opt_seq(
            crate::plane::view_opt(r2),
        ) + opt_seq(crate::plane::view_opt(r3)));
    }
    contacts
}

/// Collects the clips of the candidate segment against the first
/// triangle's three edges, tagged with their edge indices, in edge order.
fn collect_clipped(
    a1: NavVec3,
    b1: NavVec3,
    c1: NavVec3,
    sb: NavVec3,
    se: NavVec3,
    no: NavVec3,
) -> (r: Vec<(NavVec3, NavConnection)>)
    ensures
        cseq(r@) == spec_clipped(a1@, b1@, c1@, sb@, se@, no@),
{
    let e1: Option<NavVec3> = NavVec3::raycast_line_exact(a1, b1, sb, se, no);
    let e2: Option<NavVec3> = NavVec3::raycast_line_exact(b1, c1, sb, se, no);
    let e3: Option<NavVec3> = NavVec3::raycast_line_exact(c1, a1, sb, se, no);
    let mut clipped: Vec<(NavVec3, NavConnection)> = Vec::new();
    if let Some(p) = e1 {
        clipped.push((p, NavConnection(0, 1)));
    }
    proof {
        assert(cseq(clipped@) =~= opt_conn_seq(crate::plane::view_opt(e1), NavConnection(0, 1)));
    }
    if let Some(p) = e2 {
        clipped.push((p, NavConnection(1, 2)));
    }
    proof {
        assert(cseq(clipped@) =~= opt_conn_seq(crate::plane::view_opt(e1), NavConnection(0, 1))
            + opt_conn_seq(crate::plane::view_opt(e2), NavConnection(1, 2)));
    }
    if let Some(p) = e3 {
        clipped.push((p, NavConnection(2, 0)));
    }
    proof {
        assert(cseq(clipped@) =~= opt_conn_seq(crate::plane::view_opt(e1), NavConnection(0, 1))
            + opt_conn_seq(crate::plane::view_opt(e2), NavConnection(1, 2)) + opt_conn_seq(
            crate::plane::view_opt(e3),
            NavConnection(2, 0),
        ));
    }
    clipped
}

/// Pairwise deduplication: a point is dropped when any later collected
/// point lies within the zero threshold of it.
fn dedup_points(contacts: &Vec<NavVec3>) -> (r: Vec<NavVec3>)
    ensures
        vseq(r@) == spec_dedup(vseq(contacts@)),
{
    let ghost cm: Seq<Vec3> = vseq(contacts@);
    let clen: usize = contacts.len();
    let mut deduplicated: Vec<NavVec3> = Vec::new();
    let mut i: usize = 0;
    while i < clen
        invariant
            clen == contacts.len(),
            vseq(contacts@) == cm,
            cm.len() == clen as int,
            i <= clen,
            vseq(deduplicated@) + spec_dedup_from(cm, i as int) == spec_dedup(cm),
        decreases clen - i,
    {
        let mut found: bool = false;
        let mut j: usize = i + 1;
        while j < clen
            invariant
                clen == contacts.len(),
                vseq(contacts@) == cm,
                cm.len() == clen as int,
                i < clen,
                i + 1 <= j <= clen,
                found == exists|k: int|
                    i < k < j && spec_close(cm[i as int], cm[k]),
            decreases clen - j,
        {
            let ghost found0: bool = found;
            let ci: NavVec3 = contacts[i];
            let cj: NavVec3 = contacts[j];
            let is_close: bool = ci.sub(cj).sqr_magnitude() < ZERO_TRESHOLD;
            proof {
                assert(ci@ == cm[i as int]);
                assert(cj@ == cm[j as int]);
            }
            if is_close {
                found = true;
            }
            proof {
                if found {
                    if found0 {
                        let k0: int = choose|k: int|
                            i < k < j && spec_close(cm[i as int], cm[k]);
                        assert(i < k0 < j + 1 && spec_close(cm[i as int], cm[k0]));
                    } else {
                        assert(spec_close(cm[i as int], cm[j as int]));
                        assert(i < j + 1 && spec_close(cm[i as int], cm[j as int]));
                    }
                    assert(exists|k: int|
                        i < k < j + 1 && spec_close(cm[i as int], cm[k]));
                } else {
                    assert forall|k: int|
                        !(i < k < j + 1 && spec_close(cm[i as int], cm[k])) by {
                        if i < k < j + 1 && spec_close(cm[i as int], cm[k]) {
                            if k < j {
                                assert(exists|kk: int|
                                    i < kk < j && spec_close(cm[i as int], cm[kk]));
                            } else {
                                assert(k == j);
                                assert(spec_close(cm[i as int], cm[j as int]));
                            }
                        }
                    }
                }
            }
            j += 1;
        }
        proof {
            assert(found == spec_has_later_close(cm, i as int));
        }
        let ghost dv0: Seq<Vec3> = vseq(deduplicated@);
        if !found {
            deduplicated.push(contacts[i]);
        }
        proof {
            if found {
                assert(spec_dedup_from(cm, i as int) == spec_dedup_from(cm, i as int + 1));
                assert(vseq(deduplicated@) == dv0);
            } else {
                assert(spec_dedup_from(cm, i as int) == seq![cm[i as int]] + spec_dedup_from(
                    cm,
                    i as int + 1,
                ));
                assert(vseq(deduplicated@) =~= dv0 + seq![cm[i as int]]);
                assert((dv0 + seq![cm[i as int]]) + spec_dedup_from(cm, i as int + 1) =~= dv0
                    + (seq![cm[i as int]] + spec_dedup_from(cm, i as int + 1)));
            }
        }
        i += 1;
    }
    proof {
        assert(spec_dedup_from(cm, clen as int) == Seq::<Vec3>::empty());
        assert(vseq(deduplicated@) + Seq::<Vec3>::empty() =~= vseq(deduplicated@));
        assert(vseq(deduplicated@) == spec_dedup(cm));
    }
    deduplicated
}

/// Resolves the edge clips and the original candidate pair into the final
/// segment endpoints, or nothing when the outcome is degenerate.
fn resolve_seg(
    clipped: &Vec<(NavVec3, NavConnection)>,
    sb: NavVec3,
    se: NavVec3,
    a1: NavVec3,
    b1: NavVec3,
    c1: NavVec3,
    n1: NavVec3,
) -> (r: Option<(TriHit, TriHit)>)
    ensures
        view_pair(r) == spec_resolve(cseq(clipped@), sb@, se@, a1@, b1@, c1@, n1@),
{
    if clipped.len() == 2 {
        let p0: (NavVec3, NavConnection) = clipped[0];
        let p1: (NavVec3, NavConnection) = clipped[1];
        if p1.0.sub(p0.0).sqr_magnitude() < ZERO_TRESHOLD {
            None
        } else {
            Some(((p0.0, Some(p0.1)), (p1.0, Some(p1.1))))
        }
    } else if clipped.len() == 1 {
        let p: NavVec3 = clipped[0].0;
        let conn: NavConnection = clipped[0].1;
        let pb: NavVec3 = if conn.0 == 0 {
            a1
        } else if conn.0 == 1 {
            b1
        } else {
            c1
        };
        let pe: NavVec3 = if conn.1 == 0 {
            a1
        } else if conn.1 == 1 {
            b1
        } else {
            c1
        };
        let nn: NavVec3 = pe.sub(pb).cross(n1).normalize();
        let db: i64 = sb.distance_to_plane(pb, nn);
        let de: i64 = se.distance_to_plane(pb, nn);
        if db > de {
            if p.sub(se).sqr_magnitude() < ZERO_TRESHOLD {
                None
            } else {
                Some(((p, Some(conn)), (se, None)))
            }
        } else {
            if p.sub(sb).sqr_magnitude() < ZERO_TRESHOLD {
                None
            } else {
                Some(((sb, None), (p, Some(conn))))
            }
        }
    } else {
        Some(((sb, None), (se, None)))
    }
}

} // verus!
