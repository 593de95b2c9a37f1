use vstd::prelude::*;

verus! {

/// Number of vertices of the clip cube.
pub const NUM_CORNERS: usize = 8;

/// Number of representative edges of a frustum.
pub const NUM_EDGES: usize = 6;

/// Number of distinct face normals of a frustum (near and far faces share one).
pub const NUM_FACES: usize = 5;

/// Weight of the bit of a vertex index that selects its side along `axis`
/// (0 = x, 1 = y, 2 = z): x is the most significant bit, z the least.
pub open spec fn axis_step(axis: int) -> int {
    if axis == 0 {
        4
    } else if axis == 1 {
        2
    } else {
        1
    }
}

/// Sign (-1 or +1) of vertex `i` of the clip cube along `axis`.
pub open spec fn vertex_sign(i: int, axis: int) -> int {
    if (i / axis_step(axis)) % 2 == 1 {
        1
    } else {
        -1
    }
}

/// The clip-space coordinates of vertex `i`, as the triple handed to a corner map.
pub open spec fn vertex_coords(i: int) -> (i8, i8, i8) {
    (vertex_sign(i, 0) as i8, vertex_sign(i, 1) as i8, vertex_sign(i, 2) as i8)
}

/// Vertices `i` and `j` differ along `axis` and along no other axis.
pub open spec fn differ_only_along(i: int, j: int, axis: int) -> bool {
    &&& vertex_sign(i, axis) != vertex_sign(j, axis)
    &&& forall|a: int| 0 <= a < 3 && a != axis ==> vertex_sign(i, a) == vertex_sign(j, a)
}

/// Clip-space coordinates of vertex `i` (`i < 8`): vertices on the `x = -1`
/// face come first, then those on `x = +1`, each face ordered by `(y, z)`.
pub fn vertex(i: usize) -> (r: (i8, i8, i8))
    requires
        i < NUM_CORNERS,
    ensures
        r == vertex_coords(i as int),
{
    let x: i8 = if i / 4 == 1 { 1 } else { -1 };
    let y: i8 = if (i / 2) % 2 == 1 { 1 } else { -1 };
    let z: i8 = if i % 2 == 1 { 1 } else { -1 };
    (x, y, z)
}

/// Every vertex has coordinates of magnitude one, and the ordering is one to
/// one: distinct indices name distinct vertices of the cube.
pub proof fn lemma_vertices_distinct(i: int, j: int)
    requires
        0 <= i < 8,
        0 <= j < 8,
    ensures
        forall|a: int| 0 <= a < 3 ==> vertex_sign(i, a) == 1 || vertex_sign(i, a) == -1,
        i != j ==> exists|a: int| 0 <= a < 3 && vertex_sign(i, a) != vertex_sign(j, a),
{
    if i != j {
        if vertex_sign(i, 0) == vertex_sign(j, 0) && vertex_sign(i, 1) == vertex_sign(j, 1) {
            assert(vertex_sign(i, 2) != vertex_sign(j, 2));
        } else if vertex_sign(i, 0) == vertex_sign(j, 0) {
            assert(vertex_sign(i, 1) != vertex_sign(j, 1));
        } else {
            assert(vertex_sign(i, 0) != vertex_sign(j, 0));
        }
    }
}

/// Adding the step of an axis to a vertex on the low side of that axis gives
/// the vertex across the cube along that axis alone; in particular corners
/// 0 and 4 differ only in x, 0 and 2 only in y, 0 and 1 only in z.
pub proof fn lemma_axis_neighbour(i: int, axis: int)
    requires
        0 <= i < 8,
        0 <= axis < 3,
        vertex_sign(i, axis) == -1,
    ensures
        0 <= i + axis_step(axis) < 8,
        differ_only_along(i, i + axis_step(axis), axis),
        vertex_sign(i + axis_step(axis), axis) == 1,
{
    let j = i + axis_step(axis);
    assert(0 <= j < 8);
    assert(vertex_sign(i, 0) == vertex_sign(j, 0) || axis == 0);
    assert(vertex_sign(i, 1) == vertex_sign(j, 1) || axis == 1);
    assert(vertex_sign(i, 2) == vertex_sign(j, 2) || axis == 2);
}


/// Axis along which representative edge `k` runs: one width edge (x), one
/// height edge (y), then the four depth edges (z).
pub open spec fn edge_axis(k: int) -> int {
    if k == 0 {
        0
    } else if k == 1 {
        1
    } else {
        2
    }
}

/// Vertex at which representative edge `k` starts (its low end).
pub open spec fn edge_start(k: int) -> int {
    if k <= 2 {
        0
    } else if k == 3 {
        2
    } else if k == 4 {
        4
    } else {
        6
    }
}

/// Vertex at which representative edge `k` ends (its high end).
pub open spec fn edge_end(k: int) -> int {
    edge_start(k) + axis_step(edge_axis(k))
}

/// Endpoints of representative edge `k` (`k < 6`), as vertex indices: the
/// width edge 0→4, the height edge 0→2, and the depth edges 0→1, 2→3, 4→5
/// and 6→7, one at each corner of the near face.
pub fn edge(k: usize) -> (r: (usize, usize))
    requires
        k < NUM_EDGES,
    ensures
        r.0 as int == edge_start(k as int),
        r.1 as int == edge_end(k as int),
        r.0 < NUM_CORNERS,
        r.1 < NUM_CORNERS,
        differ_only_along(r.0 as int, r.1 as int, edge_axis(k as int)),
        vertex_sign(r.0 as int, edge_axis(k as int)) == -1,
{
    proof {
        lemma_axis_neighbour(edge_start(k as int), edge_axis(k as int));
    }
    if k == 0 {
        (0, 4)
    } else if k == 1 {
        (0, 2)
    } else if k == 2 {
        (0, 1)
    } else if k == 3 {
        (2, 3)
    } else if k == 4 {
        (4, 5)
    } else {
        (6, 7)
    }
}

/// The width and height edges lie on the near face (`z = -1`), and the four
/// depth edges start at the four distinct corners of that face, so no two of
/// them are the same side edge of the frustum.
pub proof fn lemma_edges_cover_near_face(k: int, l: int)
    requires
        0 <= k < 6,
        0 <= l < 6,
    ensures
        vertex_sign(edge_start(k), 2) == -1,
        edge_axis(k) != 2 ==> vertex_sign(edge_end(k), 2) == -1,
        2 <= k && 2 <= l && k != l ==> vertex_sign(edge_start(k), 0) != vertex_sign(edge_start(l), 0)
            || vertex_sign(edge_start(k), 1) != vertex_sign(edge_start(l), 1),
{
}

/// Edge `k` gives a direction within the face of the clip cube at `side` of
/// `axis`. A width or height edge runs along the eye's x or y axis; all four
/// cube edges along that axis map to parallel segments (each lies in a plane
/// of constant depth, on which the projection is affine), so it spans every
/// face that contains that axis. The depth edges converge, so one spans only
/// a face that holds both of its endpoints.
pub open spec fn edge_spans_face(k: int, axis: int, side: int) -> bool {
    if edge_axis(k) == 2 {
        axis != 2 && vertex_sign(edge_start(k), axis) == side && vertex_sign(edge_end(k), axis)
            == side
    } else {
        edge_axis(k) != axis
    }
}

/// Axis normal to the cube face that face normal `f` belongs to: the shared
/// near/far normal, then the lower, upper, left and right faces.
pub open spec fn face_axis(f: int) -> int {
    if f == 0 {
        2
    } else if f <= 2 {
        1
    } else {
        0
    }
}

/// Side (-1 or +1) of `face_axis(f)` on which face `f` lies.
pub open spec fn face_side(f: int) -> int {
    if f == 0 || f == 1 || f == 3 {
        -1
    } else {
        1
    }
}

/// First edge of the cross product that gives face normal `f`.
pub open spec fn face_first(f: int) -> int {
    if f <= 2 {
        0
    } else {
        1
    }
}

/// Second edge of the cross product that gives face normal `f`.
pub open spec fn face_second(f: int) -> int {
    if f == 0 {
        1
    } else if f == 1 {
        2
    } else if f == 2 {
        3
    } else if f == 3 {
        2
    } else {
        4
    }
}

/// The pair of representative edges whose cross product is the normal of
/// face `f` (`f < 5`). Both edges span that face and run along different
/// axes, so their cross product is normal to it.
pub fn face(f: usize) -> (r: (usize, usize))
    requires
        f < NUM_FACES,
    ensures
        r.0 as int == face_first(f as int),
        r.1 as int == face_second(f as int),
        r.0 < NUM_EDGES,
        r.1 < NUM_EDGES,
        edge_axis(r.0 as int) != edge_axis(r.1 as int),
        edge_spans_face(r.0 as int, face_axis(f as int), face_side(f as int)),
        edge_spans_face(r.1 as int, face_axis(f as int), face_side(f as int)),
{
    if f == 0 {
        (0, 1)
    } else if f == 1 {
        (0, 2)
    } else if f == 2 {
        (0, 3)
    } else if f == 3 {
        (1, 2)
    } else {
        (1, 4)
    }
}

/// The face normals belong to pairwise distinct faces, and together they
/// cover every face of the cube; the far face shares the near face's normal.
pub proof fn lemma_faces_cover_cube(f: int, g: int, axis: int, side: int)
    requires
        0 <= f < 5,
        0 <= g < 5,
        0 <= axis < 3,
        side == 1 || side == -1,
    ensures
        f != g ==> face_axis(f) != face_axis(g) || face_side(f) != face_side(g),
        axis == 2 ==> face_axis(0) == axis,
        axis != 2 ==> exists|h: int|
            0 <= h < 5 && face_axis(h) == axis && face_side(h) == side,
{
    if axis == 1 {
        assert(face_axis(1) == axis && face_side(1) == -1);
        assert(face_axis(2) == axis && face_side(2) == 1);
    } else if axis == 0 {
        assert(face_axis(3) == axis && face_side(3) == -1);
        assert(face_axis(4) == axis && face_side(4) == 1);
    }
}

} // verus!
