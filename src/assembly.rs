use vstd::prelude::*;

use crate::cube::{edge, edge_end, edge_start, face, face_first, face_second, vertex, vertex_coords};

verus! {

/// The polyhedron data that a separating-axis test consumes: the eight
/// corners in the canonical vertex order, the six representative edge
/// directions, and the five face normals.
pub struct Intersector<P, V> {
    pub corners: [P; 8],
    pub edges: [V; 6],
    pub face_normals: [V; 5],
}

/// `corner_from` accepts every vertex of the clip cube.
pub open spec fn accepts_vertices<P, F: Fn(i8, i8, i8) -> P>(corner_from: F) -> bool {
    forall|i: int| 0 <= i < 8 ==> #[trigger] corner_from.requires(vertex_coords(i))
}

/// `corners@[i]` is a result of `corner_from` on vertex `i`, for each vertex.
pub open spec fn are_corners<P, F: Fn(i8, i8, i8) -> P>(corner_from: F, corners: Seq<P>) -> bool {
    &&& corners.len() == 8
    &&& forall|i: int| 0 <= i < 8 ==> corner_from.ensures(vertex_coords(i), #[trigger] corners[i])
}

/// `edges@[k]` is a result of `direction` from the start to the end corner of
/// representative edge `k`, for each edge.
pub open spec fn are_edges<P, V, G: Fn(&P, &P) -> V>(
    direction: G,
    corners: Seq<P>,
    edges: Seq<V>,
) -> bool {
    &&& edges.len() == 6
    &&& forall|k: int|
        0 <= k < 6 ==> direction.ensures(
            (&corners[edge_start(k)], &corners[edge_end(k)]),
            #[trigger] edges[k],
        )
}

/// `normals@[f]` is a result of `normal` on the two edges of face `f`.
pub open spec fn are_face_normals<V, H: Fn(&V, &V) -> V>(
    normal: H,
    edges: Seq<V>,
    normals: Seq<V>,
) -> bool {
    &&& normals.len() == 5
    &&& forall|f: int|
        0 <= f < 5 ==> normal.ensures(
            (&edges[face_first(f)], &edges[face_second(f)]),
            #[trigger] normals[f],
        )
}

/// Maps the eight vertices of the clip cube through `corner_from`, in the
/// canonical order.
pub fn compute_corners<P, F: Fn(i8, i8, i8) -> P>(corner_from: &F) -> (r: [P; 8])
    requires
        accepts_vertices(*corner_from),
    ensures
        are_corners(*corner_from, r@),
{
    let (x0, y0, z0) = vertex(0);
    let (x1, y1, z1) = vertex(1);
    let (x2, y2, z2) = vertex(2);
    let (x3, y3, z3) = vertex(3);
    let (x4, y4, z4) = vertex(4);
    let (x5, y5, z5) = vertex(5);
    let (x6, y6, z6) = vertex(6);
    let (x7, y7, z7) = vertex(7);
    let r = [
        corner_from(x0, y0, z0),
        corner_from(x1, y1, z1),
        corner_from(x2, y2, z2),
        corner_from(x3, y3, z3),
        corner_from(x4, y4, z4),
        corner_from(x5, y5, z5),
        corner_from(x6, y6, z6),
        corner_from(x7, y7, z7),
    ];
    r
}


/// `direction` accepts every pair of corners.
pub open spec fn accepts_corner_pairs<P, V, G: Fn(&P, &P) -> V>(direction: G) -> bool {
    forall|a: P, b: P| #[trigger] direction.requires((&a, &b))
}

/// `normal` accepts every pair of edge directions.
pub open spec fn accepts_edge_pairs<V, H: Fn(&V, &V) -> V>(normal: H) -> bool {
    forall|a: V, b: V| #[trigger] normal.requires((&a, &b))
}

/// Derives the six representative edge directions from the corners: entry
/// `k` is `direction` from the start to the end corner of edge `k`.
pub fn compute_edges<P, V, G: Fn(&P, &P) -> V>(corners: &[P; 8], direction: &G) -> (r: [V; 6])
    requires
        accepts_corner_pairs(*direction),
    ensures
        are_edges(*direction, corners@, r@),
{
    let (s0, e0) = edge(0);
    let (s1, e1) = edge(1);
    let (s2, e2) = edge(2);
    let (s3, e3) = edge(3);
    let (s4, e4) = edge(4);
    let (s5, e5) = edge(5);
    let r = [
        direction(&corners[s0], &corners[e0]),
        direction(&corners[s1], &corners[e1]),
        direction(&corners[s2], &corners[e2]),
        direction(&corners[s3], &corners[e3]),
        direction(&corners[s4], &corners[e4]),
        direction(&corners[s5], &corners[e5]),
    ];
    r
}

/// Derives the five face normals from the edge directions: entry `f` is
/// `normal` of the two edges that span face `f`.
pub fn compute_face_normals<V, H: Fn(&V, &V) -> V>(edges: &[V; 6], normal: &H) -> (r: [V; 5])
    requires
        accepts_edge_pairs(*normal),
    ensures
        are_face_normals(*normal, edges@, r@),
{
    let (a0, b0) = face(0);
    let (a1, b1) = face(1);
    let (a2, b2) = face(2);
    let (a3, b3) = face(3);
    let (a4, b4) = face(4);
    let r = [
        normal(&edges[a0], &edges[b0]),
        normal(&edges[a1], &edges[b1]),
        normal(&edges[a2], &edges[b2]),
        normal(&edges[a3], &edges[b3]),
        normal(&edges[a4], &edges[b4]),
    ];
    r
}

/// Computes the corners once and derives the edges from them and the face
/// normals from the edges, so that no corner is mapped twice.
pub fn intersector<P, V, F, G, H>(corner_from: &F, direction: &G, normal: &H) -> (r: Intersector<
    P,
    V,
>) where F: Fn(i8, i8, i8) -> P, G: Fn(&P, &P) -> V, H: Fn(&V, &V) -> V
    requires
        accepts_vertices(*corner_from),
        accepts_corner_pairs(*direction),
        accepts_edge_pairs(*normal),
    ensures
        are_corners(*corner_from, r.corners@),
        are_edges(*direction, r.corners@, r.edges@),
        are_face_normals(*normal, r.edges@, r.face_normals@),
{
    let corners = compute_corners(corner_from);
    let edges = compute_edges(&corners, direction);
    let face_normals = compute_face_normals(&edges, normal);
    Intersector { corners, edges, face_normals }
}

} // verus!
