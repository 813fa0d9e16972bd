//! Oriented boxes, intersected with the slab method in the box's local
//! frame.

use vstd::prelude::*;
use crate::fp::{EPS, fsub, fdiv, fneg, fabs, fmin, fmax, fmul, fp_sub, fp_div, fp_neg, fp_abs,
    fp_min, fp_max, fp_mul};
use crate::materials::Material;
use crate::math::intersection::Intersection;
use crate::math::mat3::{Mat3, mat_vec_spec, mat_transpose_spec, rot_zyx_spec};
use crate::math::ray::{Ray, ray_at};
use crate::math::vec3::{Vec3, v_add, v_sub, v_len, v_norm};

verus! {

/// Stand-in parameter for the whole ray line when a slab puts no bound
/// on it (the ray runs parallel to that slab's axis).
pub const T_FAR: i64 = i64::MAX;

/// An axis-aligned box of edge length `size` centered at `center`, then
/// rotated by Euler angles (whole degrees, combined Z*Y*X).  The rotation
/// matrix and its inverse (its transpose) are fixed at construction.
#[derive(Clone, Copy, Debug, PartialEq, Eq, Structural)]
pub struct Cube {
    pub center: Vec3,
    pub rotation: Vec3,
    pub size: i64,
    pub material: Material,
    pub rotation_matrix: Mat3,
    pub inverse_rotation_matrix: Mat3,
}

/// One slab test: the entry and exit parameters of the ray against the
/// pair of planes `coordinate = -half` and `coordinate = half`, or a miss
/// when the ray runs parallel to the slab outside it.
pub open spec fn slab_spec(o: int, d: int, half: int) -> (bool, int, int) {
    if d == 0 {
        if o < -half || o > half {
            (true, 0, 0)
        } else {
            (false, -T_FAR as int, T_FAR as int)
        }
    } else {
        let t1 = fdiv(fsub(fneg(half), o), d);
        let t2 = fdiv(fsub(half, o), d);
        (false, fmin(t1, t2), fmax(t1, t2))
    }
}

/// The local-frame normal of the hit point: the axis with the largest
/// magnitude wins (ties in the order X, Y, Z), signed by the coordinate.
pub open spec fn local_normal_spec(p: Vec3) -> Vec3 {
    let ax = fabs(p.x as int);
    let ay = fabs(p.y as int);
    let az = fabs(p.z as int);
    let m = fmax(fmax(ax, ay), az);
    if ax == m {
        Vec3 { x: sign_unit(p.x as int), y: 0, z: 0 }
    } else if ay == m {
        Vec3 { x: 0, y: sign_unit(p.y as int), z: 0 }
    } else {
        Vec3 { x: 0, y: 0, z: sign_unit(p.z as int) }
    }
}

/// Fixed-point one, signed like `c` (zero counts as positive).
pub open spec fn sign_unit(c: int) -> i64 {
    if c >= 0 {
        1024i64
    } else {
        -1024i64
    }
}

/// The slab intersection in the cube's local frame: the ray is carried
/// into that frame by the inverse rotation, clipped against the box
/// `[-size/2, size/2]^3`, and the hit is carried back to world space.
/// The reported distance is the world-space distance from the ray origin
/// to the hit point.
pub open spec fn cube_hit_spec(c: Cube, r: Ray) -> Option<Intersection> {
    let local_origin = mat_vec_spec(c.inverse_rotation_matrix, v_sub(r.origin, c.center));
    let local_dir = mat_vec_spec(c.inverse_rotation_matrix, r.direction);
    let half = fmul(c.size as int, 512);
    let sx = slab_spec(local_origin.x as int, local_dir.x as int, half);
    let sy = slab_spec(local_origin.y as int, local_dir.y as int, half);
    let sz = slab_spec(local_origin.z as int, local_dir.z as int, half);
    if sx.0 || sy.0 || sz.0 {
        None
    } else {
        let tmin = fmax(fmax(sx.1, sy.1), sz.1);
        let tmax = fmin(fmin(sx.2, sy.2), sz.2);
        if tmax < 0 || tmin > tmax {
            None
        } else {
            let t = if tmin > EPS as int {
                tmin
            } else {
                tmax
            };
            if t <= EPS as int {
                None
            } else {
                let local_ray = Ray { origin: local_origin, direction: local_dir };
                let local_point = ray_at(local_ray, t);
                let local_normal = local_normal_spec(local_point);
                let world_point = v_add(c.center, mat_vec_spec(c.rotation_matrix, local_point));
                let world_normal = v_norm(mat_vec_spec(c.rotation_matrix, local_normal));
                Some(Intersection {
                    distance: v_len(v_sub(world_point, r.origin)) as i64,
                    point: world_point,
                    normal: world_normal,
                    material: c.material,
                })
            }
        }
    }
}

/// One executable slab test; see `slab_spec`.
fn slab(o: i64, d: i64, half: i64) -> (res: (bool, i64, i64))
    ensures
        (res.0, res.1 as int, res.2 as int) == slab_spec(o as int, d as int, half as int),
{
    if d == 0 {
        if (o as i128) < -(half as i128) || o > half {
            (true, 0, 0)
        } else {
            (false, -T_FAR, T_FAR)
        }
    } else {
        let t1 = fp_div(fp_sub(fp_neg(half), o), d);
        let t2 = fp_div(fp_sub(half, o), d);
        (false, fp_min(t1, t2), fp_max(t1, t2))
    }
}

/// The local-frame normal; see `local_normal_spec`.
fn local_normal(p: &Vec3) -> (r: Vec3)
    ensures
        r == local_normal_spec(*p),
{
    let ax = fp_abs(p.x);
    let ay = fp_abs(p.y);
    let az = fp_abs(p.z);
    let m = fp_max(fp_max(ax, ay), az);
    if ax == m {
        Vec3 { x: if p.x >= 0 { 1024 } else { -1024 }, y: 0, z: 0 }
    } else if ay == m {
        Vec3 { x: 0, y: if p.y >= 0 { 1024 } else { -1024 }, z: 0 }
    } else {
        Vec3 { x: 0, y: 0, z: if p.z >= 0 { 1024 } else { -1024 } }
    }
}

impl Cube {
    /// Build the box and fix its rotation matrix (Euler angles in whole
    /// degrees, combined Z*Y*X) and the inverse, which is the transpose.
    pub fn new(center: Vec3, rotation: Vec3, size: i64, material: Material) -> (c: Cube)
        ensures
            c.center == center,
            c.rotation == rotation,
            c.size == size,
            c.material == material,
            c.rotation_matrix == rot_zyx_spec(rotation.x as int, rotation.y as int,
                rotation.z as int),
            c.inverse_rotation_matrix == mat_transpose_spec(c.rotation_matrix),
    {
        let rotation_matrix = Mat3::rotation_zyx(rotation.x, rotation.y, rotation.z);
        let inverse_rotation_matrix = rotation_matrix.transpose();
        Cube { center, rotation, size, material, rotation_matrix, inverse_rotation_matrix }
    }

    /// Nearest valid intersection of `ray` with the box.
    pub fn hit(&self, ray: &Ray) -> (res: Option<Intersection>)
        ensures
            res == cube_hit_spec(*self, *ray),
    {
        let local_origin = self.inverse_rotation_matrix.mul_vec(&ray.origin.sub(&self.center));
        let local_dir = self.inverse_rotation_matrix.mul_vec(&ray.direction);
        let half = fp_mul(self.size, 512);
        let sx = slab(local_origin.x, local_dir.x, half);
        let sy = slab(local_origin.y, local_dir.y, half);
        let sz = slab(local_origin.z, local_dir.z, half);
        if sx.0 || sy.0 || sz.0 {
            return None;
        }
        let tmin = fp_max(fp_max(sx.1, sy.1), sz.1);
        let tmax = fp_min(fp_min(sx.2, sy.2), sz.2);
        if tmax < 0 || tmin > tmax {
            return None;
        }
        let t = if tmin > EPS {
            tmin
        } else {
            tmax
        };
        if t <= EPS {
            return None;
        }
        let local_ray = Ray { origin: local_origin, direction: local_dir };
        let local_point = local_ray.at(t);
        let ln = local_normal(&local_point);
        let world_point = self.center.add(&self.rotation_matrix.mul_vec(&local_point));
        let world_normal = self.rotation_matrix.mul_vec(&ln).normalized();
        let world_distance = world_point.sub(&ray.origin).length();
        Some(Intersection::new(world_distance, world_point, world_normal, self.material))
    }
}

} // verus!
