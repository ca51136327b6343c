//! Tests of the plane, line and triangle predicates, including the
//! triangle-triangle clipping with its edge connection markers.

use navmesh::{NavConnection, NavVec3, SCALE};

/// Raw fixed-point value of a real number.
fn s(x: f64) -> i64 {
    (x * SCALE as f64).round() as i64
}

fn v(x: f64, y: f64, z: f64) -> NavVec3 {
    NavVec3::new(s(x), s(y), s(z))
}

fn assert_near(a: i64, b: i64, tol: i64) {
    assert!((a - b).abs() <= tol, "{} vs {} (tol {})", a, b, tol);
}

fn assert_vec_near(a: NavVec3, b: NavVec3, tol: i64) {
    assert_near(a.x(), b.x(), tol);
    assert_near(a.y(), b.y(), tol);
    assert_near(a.z(), b.z(), tol);
}

#[test]
fn distance_and_side_of_plane() {
    let origin = v(0.0, 0.0, 0.0);
    let normal = v(0.0, 0.0, 1.0);
    assert_eq!(v(1.0, 2.0, 3.0).distance_to_plane(origin, normal), s(3.0));
    assert_eq!(v(1.0, 2.0, -3.0).distance_to_plane(origin, normal), s(-3.0));
    assert!(v(0.0, 0.0, 1.0).is_above_plane(origin, normal));
    assert!(v(0.0, 0.0, 0.0).is_above_plane(origin, normal));
    assert!(!v(0.0, 0.0, -1.0).is_above_plane(origin, normal));
}

#[test]
fn project_on_plane_drops_height() {
    let origin = v(0.0, 0.0, 0.0);
    let normal = v(0.0, 0.0, 1.0);
    let p = v(1.0, 2.0, 3.0).project_on_plane(origin, normal);
    assert_vec_near(p, v(1.0, 2.0, 0.0), 2);
}

#[test]
fn raycast_plane_hits_origin() {
    let hit = NavVec3::raycast_plane(
        v(0.0, 0.0, -1.0),
        v(0.0, 0.0, 1.0),
        v(0.0, 0.0, 0.0),
        v(0.0, 0.0, 1.0),
    );
    let p = hit.expect("segment crosses the plane");
    assert_eq!((p.x(), p.y(), p.z()), (0, 0, 0));
}

#[test]
fn raycast_plane_parallel_is_none() {
    let hit = NavVec3::raycast_plane(
        v(0.0, 0.0, 1.0),
        v(1.0, 0.0, 1.0),
        v(0.0, 0.0, 0.0),
        v(0.0, 0.0, 1.0),
    );
    assert!(hit.is_none());
}

#[test]
fn raycast_plane_outside_segment_is_none() {
    let hit = NavVec3::raycast_plane(
        v(0.0, 0.0, 1.0),
        v(0.0, 0.0, 2.0),
        v(0.0, 0.0, 0.0),
        v(0.0, 0.0, 1.0),
    );
    assert!(hit.is_none());
}

#[test]
fn raycast_line_clamps_to_segment() {
    // The segment [from, to] pierces the plane of (a, normal) at (2, 0, 0),
    // beyond the end of (a, b): the clamped variant lands on b.
    let from = v(2.0, 0.0, -1.0);
    let to = v(2.0, 0.0, 1.0);
    let a = v(0.0, 0.0, 0.0);
    let b = v(1.0, 0.0, 0.0);
    let normal = v(0.0, 0.0, 1.0);
    let p = NavVec3::raycast_line(from, to, a, b, normal).expect("plane is crossed");
    assert_vec_near(p, b, 2);
    // The exact variant refuses the same out-of-range parameter.
    assert!(NavVec3::raycast_line_exact(from, to, a, b, normal).is_none());
}

#[test]
fn raycast_line_exact_inside_segment() {
    let from = v(0.5, 0.0, -1.0);
    let to = v(0.5, 0.0, 1.0);
    let a = v(0.0, 0.0, 0.0);
    let b = v(1.0, 0.0, 0.0);
    let normal = v(0.0, 0.0, 1.0);
    let p = NavVec3::raycast_line_exact(from, to, a, b, normal).expect("hit inside segment");
    assert_vec_near(p, v(0.5, 0.0, 0.0), 2);
}

#[test]
fn raycast_triangle_inside_and_outside() {
    let a = v(0.0, 0.0, 0.0);
    let b = v(1.0, 0.0, 0.0);
    let c = v(0.0, 1.0, 0.0);
    let hit = NavVec3::raycast_triangle(v(0.25, 0.25, -1.0), v(0.25, 0.25, 1.0), a, b, c);
    let p = hit.expect("ray pierces the triangle");
    assert_near(p.z(), 0, 4);
    assert_near(p.x(), s(0.25), 4);
    assert_near(p.y(), s(0.25), 4);
    let miss = NavVec3::raycast_triangle(v(0.9, 0.9, -1.0), v(0.9, 0.9, 1.0), a, b, c);
    assert!(miss.is_none());
}

#[test]
fn planes_intersection_identical_planes_is_none() {
    let p = v(0.0, 0.0, 0.0);
    let n = v(0.0, 0.0, 1.0);
    assert!(NavVec3::planes_intersection(p, n, p, n).is_none());
}

#[test]
fn planes_intersection_orthogonal_planes() {
    let r = NavVec3::planes_intersection(
        v(0.0, 0.0, 0.0),
        v(0.0, 0.0, 1.0),
        v(0.0, 0.0, 0.0),
        v(1.0, 0.0, 0.0),
    );
    let (p, dir) = r.expect("planes cross in a line");
    assert_eq!((p.x(), p.y(), p.z()), (0, 0, 0));
    assert_vec_near(dir, v(0.0, 1.0, 0.0), 2);
}

#[test]
fn line_between_points_side_cases() {
    let from = v(0.0, 0.0, 0.0);
    let to = v(1.0, 0.0, 0.0);
    let normal = v(0.0, 0.0, 1.0);
    // Opposite sides of the x-axis: between.
    assert!(NavVec3::is_line_between_points(from, to, v(0.5, 1.0, 0.0), v(0.5, -1.0, 0.0), normal));
    // The same side: not between.
    assert!(!NavVec3::is_line_between_points(from, to, v(0.5, 1.0, 0.0), v(0.5, 2.0, 0.0), normal));
    // One point exactly on the line: not between.
    assert!(!NavVec3::is_line_between_points(from, to, v(0.5, 0.0, 0.0), v(0.5, -1.0, 0.0), normal));
}

#[test]
fn side_has_dead_zone() {
    assert_eq!(NavVec3::side(0), 0);
    assert_eq!(NavVec3::side(63), 0);
    assert_eq!(NavVec3::side(-63), 0);
    assert_eq!(NavVec3::side(64), 1);
    assert_eq!(NavVec3::side(-64), -1);
}

#[test]
fn triangles_intersection_crossing() {
    // A triangle in the plane of the first one's footprint, crossed by a
    // vertical triangle: the crossing segment is clipped at the diagonal.
    let a1 = v(0.0, 0.0, 0.0);
    let b1 = v(2.0, 0.0, 0.0);
    let c1 = v(2.0, 2.0, 0.0);
    let a2 = v(0.5, 1.5, -1.0);
    let b2 = v(1.5, 0.5, -1.0);
    let c2 = v(1.0, 1.0, 2.0);
    let r = NavVec3::triangles_intersection(a1, b1, c1, a2, b2, c2);
    let (begin, end, _no) = r.expect("the triangles cross");
    let marks = [begin.1, end.1];
    let marked = marks.iter().filter(|m| m.is_some()).count();
    assert_eq!(marked, 1, "exactly one endpoint lies on an edge of the first triangle");
    let conn = marks.iter().flatten().next().copied().unwrap();
    assert_eq!(conn, NavConnection(2, 0));
    // The edge-attached endpoint sits on the diagonal near (1, 1, 0).
    let on_edge = if begin.1.is_some() { begin.0 } else { end.0 };
    assert_vec_near(on_edge, v(1.0, 1.0, 0.0), 700);
}

#[test]
fn triangles_intersection_shared_edge_markers() {
    // Two coplanar triangles sharing the diagonal of a square, crossed by
    // the same vertical triangle: each reports the shared edge under its
    // own index pair, and the two markers differ.
    let a2 = v(0.5, 1.5, -1.0);
    let b2 = v(1.5, 0.5, -1.0);
    let c2 = v(1.0, 1.0, 2.0);
    let first = NavVec3::triangles_intersection(
        v(0.0, 0.0, 0.0),
        v(2.0, 0.0, 0.0),
        v(2.0, 2.0, 0.0),
        a2,
        b2,
        c2,
    )
    .expect("crosses the lower triangle");
    let second = NavVec3::triangles_intersection(
        v(0.0, 0.0, 0.0),
        v(2.0, 2.0, 0.0),
        v(0.0, 2.0, 0.0),
        a2,
        b2,
        c2,
    )
    .expect("crosses the upper triangle");
    let mark_of = |seg: &((NavVec3, Option<NavConnection>), (NavVec3, Option<NavConnection>), NavVec3)| {
        [seg.0.1, seg.1.1].iter().flatten().next().copied().unwrap()
    };
    let m1 = mark_of(&first);
    let m2 = mark_of(&second);
    assert_eq!(m1, NavConnection(2, 0), "diagonal is the third edge of the lower triangle");
    assert_eq!(m2, NavConnection(0, 1), "diagonal is the first edge of the upper triangle");
    assert_ne!(m1, m2);
}

#[test]
fn line_crosses_triangle_heuristic() {
    let a = v(0.0, 0.0, 0.0);
    let b = v(2.0, 0.0, 0.0);
    let c = v(2.0, 2.0, 0.0);
    // One endpoint inside the footprint is enough.
    assert!(NavVec3::does_line_crosses_triangle(v(1.0, 0.5, 0.0), v(5.0, 5.0, 0.0), a, b, c));
    // Both endpoints far outside are rejected.
    assert!(!NavVec3::does_line_crosses_triangle(v(5.0, 5.0, 0.0), v(6.0, 5.0, 0.0), a, b, c));
}

#[test]
fn triangles_intersection_tangential_touch_is_none() {
    // The second triangle only touches the first one's plane at a single
    // vertex: one deduplicated contact is not a crossing.
    let r = NavVec3::triangles_intersection(
        v(0.0, 0.0, 0.0),
        v(2.0, 0.0, 0.0),
        v(2.0, 2.0, 0.0),
        v(1.0, 1.0, 0.0),
        v(2.0, 1.0, 1.0),
        v(1.0, 2.0, 1.0),
    );
    assert!(r.is_none());
}

#[test]
fn triangles_intersection_disjoint_is_none() {
    // The second triangle floats entirely above the first one's plane.
    let r = NavVec3::triangles_intersection(
        v(0.0, 0.0, 0.0),
        v(2.0, 0.0, 0.0),
        v(2.0, 2.0, 0.0),
        v(0.0, 0.0, 1.0),
        v(1.0, 0.0, 1.0),
        v(0.0, 1.0, 2.0),
    );
    assert!(r.is_none());
}

#[test]
fn triangles_intersection_outside_footprint_is_none() {
    // The vertical triangle crosses the first one's plane, but far from
    // its footprint.
    let r = NavVec3::triangles_intersection(
        v(0.0, 0.0, 0.0),
        v(2.0, 0.0, 0.0),
        v(2.0, 2.0, 0.0),
        v(10.0, 10.0, -1.0),
        v(11.0, 10.0, -1.0),
        v(10.5, 10.0, 2.0),
    );
    assert!(r.is_none());
}
