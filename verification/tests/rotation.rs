//! Rotation round trips: a rotation followed by its inverse (the
//! transpose) restores a point, exactly for quarter turns and within a
//! couple of fixed-point steps at 45 degrees.

use rayst::Cube;
use rayst::Vec3;
use rayst::math::mat3::Mat3;

fn round_trip(rx: i64, ry: i64, rz: i64, p: Vec3) -> Vec3 {
    let m = Mat3::rotation_zyx(rx, ry, rz);
    m.transpose().mul_vec(&m.mul_vec(&p))
}

fn assert_close(a: Vec3, b: Vec3, tol: i64) {
    assert!((a.x - b.x).abs() <= tol, "x: {} vs {}", a.x, b.x);
    assert!((a.y - b.y).abs() <= tol, "y: {} vs {}", a.y, b.y);
    assert!((a.z - b.z).abs() <= tol, "z: {} vs {}", a.z, b.z);
}

#[test]
fn quarter_turns_restore_points_exactly() {
    let p = Vec3::new(1024, 512, -2048);
    for angle in [0i64, 90, 180, 270] {
        assert_eq!(round_trip(angle, 0, 0, p), p, "x axis {}", angle);
        assert_eq!(round_trip(0, angle, 0, p), p, "y axis {}", angle);
        assert_eq!(round_trip(0, 0, angle, p), p, "z axis {}", angle);
    }
}

#[test]
fn forty_five_degrees_restores_points_within_tolerance() {
    let p = Vec3::new(1024, 512, -2048);
    for (rx, ry, rz) in [(45i64, 0i64, 0i64), (0, 45, 0), (0, 0, 45)] {
        assert_close(round_trip(rx, ry, rz, p), p, 4);
    }
}

#[test]
fn rotated_cube_stores_inverse_as_transpose() {
    let m = Mat3::rotation_zyx(0, 45, 0);
    let cube = Cube::new(Vec3::zero(), Vec3::new(0, 45, 0), 2048, rayst::Material::gold());
    assert_eq!(cube.rotation_matrix, m);
    assert_eq!(cube.inverse_rotation_matrix, m.transpose());
}

#[test]
fn ninety_degree_y_rotation_maps_x_to_minus_z() {
    let m = Mat3::rotation_zyx(0, 90, 0);
    assert_eq!(m.mul_vec(&Vec3::new(1024, 0, 0)), Vec3::new(0, 0, -1024));
    assert_eq!(m.mul_vec(&Vec3::new(0, 0, -1024)), Vec3::new(-1024, 0, 0));
}
