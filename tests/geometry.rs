use frustum::assembly::{intersector, Intersector};
use nalgebra::{Isometry3, Matrix4, Perspective3, Point3, Unit, Vector3};

fn off_axis(left: f64, right: f64, bottom: f64, top: f64, near: f64, far: f64) -> Matrix4<f64> {
    Matrix4::new(
        2.0 * near / (right - left),
        0.0,
        (right + left) / (right - left),
        0.0,
        0.0,
        2.0 * near / (top - bottom),
        (top + bottom) / (top - bottom),
        0.0,
        0.0,
        0.0,
        -(far + near) / (far - near),
        -2.0 * far * near / (far - near),
        0.0,
        0.0,
        -1.0,
        0.0,
    )
}

fn polyhedron(query_from_clip: Matrix4<f64>) -> Intersector<Point3<f64>, Unit<Vector3<f64>>> {
    let corner_from = |x: i8, y: i8, z: i8| {
        query_from_clip.transform_point(&Point3::new(x as f64, y as f64, z as f64))
    };
    let direction = |a: &Point3<f64>, b: &Point3<f64>| Unit::new_normalize(b - a);
    let normal = |a: &Unit<Vector3<f64>>, b: &Unit<Vector3<f64>>| Unit::new_normalize(a.cross(b));
    intersector(&corner_from, &direction, &normal)
}

fn span(points: &[Point3<f64>], axis: usize) -> f64 {
    let lo = points.iter().map(|p| p[axis]).fold(f64::INFINITY, f64::min);
    let hi = points.iter().map(|p| p[axis]).fold(f64::NEG_INFINITY, f64::max);
    hi - lo
}

#[test]
fn symmetric_near_face_is_smaller_than_far_face() {
    let perspective = Perspective3::new(1.0, 1.2, 0.1, 10.0);
    let it = polyhedron(perspective.inverse());
    let near: Vec<Point3<f64>> = [0, 2, 4, 6].iter().map(|&i| it.corners[i]).collect();
    let far: Vec<Point3<f64>> = [1, 3, 5, 7].iter().map(|&i| it.corners[i]).collect();
    for axis in 0..2 {
        assert!(span(&near, axis) < span(&far, axis));
    }
    for p in &near {
        assert!((p.z + 0.1).abs() < 1e-9);
    }
    for p in &far {
        assert!((p.z + 10.0).abs() < 1e-6);
    }
}

#[test]
fn edges_have_unit_length() {
    let clip_from_eye = off_axis(-0.3, 0.1, -0.05, 0.2, 0.5, 20.0);
    let it = polyhedron(clip_from_eye.try_inverse().unwrap());
    for e in it.edges.iter() {
        assert!((e.norm() - 1.0).abs() < 1e-9);
    }
}

#[test]
fn face_normals_are_normal_to_their_faces() {
    let clip_from_eye = off_axis(-0.3, 0.1, -0.05, 0.2, 0.5, 20.0);
    let query_from_eye = Isometry3::new(Vector3::new(1.0, -2.0, 3.0), Vector3::new(0.2, 0.4, -0.1));
    let query_from_clip = query_from_eye.to_homogeneous() * clip_from_eye.try_inverse().unwrap();
    let it = polyhedron(query_from_clip);
    let c = &it.corners;
    let faces = [
        [(0, 4), (0, 2), (1, 5), (1, 3)],
        [(0, 4), (0, 1), (4, 5), (1, 5)],
        [(2, 6), (2, 3), (6, 7), (3, 7)],
        [(0, 2), (0, 1), (2, 3), (1, 3)],
        [(4, 6), (4, 5), (6, 7), (5, 7)],
    ];
    for (f, sides) in faces.iter().enumerate() {
        let n = it.face_normals[f];
        for &(a, b) in sides.iter() {
            let d = (c[b] - c[a]).normalize();
            assert!(n.dot(&d).abs() < 1e-9, "face {} side {}-{}", f, a, b);
        }
    }
    let left = it.face_normals[3];
    let right = it.face_normals[4];
    assert!(left.cross(&right).norm() > 1e-3);
}
