//! The pinhole camera: a pixel plus a sub-pixel jitter becomes a primary
//! ray.

use vstd::prelude::*;
use crate::fp::{fadd, fsub, fmul, fdiv, fp_add, fp_sub, fp_mul, fp_div};
use crate::math::ray::Ray;
use crate::math::vec3::{Vec3, v_add, v_scale, v_cross, v_norm};

verus! {

/// A camera at `position` looking along the unit vector `direction`,
/// with fixed world up.  `fov_tan` is the tangent of half the vertical
/// field of view, as a fixed-point scalar (about 591 for 60 degrees);
/// trigonometry on arbitrary angles is left to the caller.
#[derive(Clone, Copy, Debug, PartialEq, Eq, Structural)]
pub struct Camera {
    pub position: Vec3,
    pub direction: Vec3,
    pub up: Vec3,
    pub fov_tan: i64,
}

/// The world-space primary ray of pixel `(x, y)` with sub-pixel offsets
/// `(ox, oy)` (fixed point, in `[0, 1)`): pixel coordinates go to
/// normalized device coordinates in `[-1, 1]`, scaled by the aspect
/// ratio and `fov_tan`, and are combined with the camera basis.
pub open spec fn generate_ray_spec(
    c: Camera,
    x: int,
    y: int,
    width: int,
    height: int,
    ox: int,
    oy: int,
) -> Ray {
    let w_fp = 1024 * width;
    let h_fp = 1024 * height;
    let aspect = fdiv(w_fp, h_fp);
    let u0 = fsub(fmul(fdiv(fadd(1024 * x, ox), w_fp), 2048), 1024);
    let v0 = fsub(1024, fmul(fdiv(fadd(1024 * y, oy), h_fp), 2048));
    let u1 = fmul(fmul(u0, aspect), c.fov_tan as int);
    let v1 = fmul(v0, c.fov_tan as int);
    let right = v_norm(v_cross(c.direction, c.up));
    let up2 = v_norm(v_cross(right, c.direction));
    let dir = v_norm(v_add(v_add(c.direction, v_scale(right, u1)), v_scale(up2, v1)));
    Ray { origin: c.position, direction: dir }
}

impl Camera {
    /// The stored direction is normalized; up is the world Y axis.
    pub fn new(position: Vec3, direction: Vec3, fov_tan: i64) -> (c: Camera)
        ensures
            c.position == position,
            c.direction == v_norm(direction),
            c.up == (Vec3 { x: 0i64, y: 1024i64, z: 0i64 }),
            c.fov_tan == fov_tan,
    {
        Camera {
            position,
            direction: direction.normalized(),
            up: Vec3 { x: 0, y: 1024, z: 0 },
            fov_tan,
        }
    }

    /// The primary ray of pixel `(x, y)`; see `generate_ray_spec`.
    pub fn generate_ray(
        &self,
        x: u32,
        y: u32,
        width: u32,
        height: u32,
        offset_x: i64,
        offset_y: i64,
    ) -> (r: Ray)
        requires
            width > 0,
            height > 0,
        ensures
            r == generate_ray_spec(*self, x as int, y as int, width as int, height as int,
                offset_x as int, offset_y as int),
    {
        let w_fp: i64 = 1024 * (width as i64);
        let h_fp: i64 = 1024 * (height as i64);
        let x_fp: i64 = 1024 * (x as i64);
        let y_fp: i64 = 1024 * (y as i64);
        let aspect = fp_div(w_fp, h_fp);
        let u0 = fp_sub(fp_mul(fp_div(fp_add(x_fp, offset_x), w_fp), 2048), 1024);
        let v0 = fp_sub(1024, fp_mul(fp_div(fp_add(y_fp, offset_y), h_fp), 2048));
        let u1 = fp_mul(fp_mul(u0, aspect), self.fov_tan);
        let v1 = fp_mul(v0, self.fov_tan);
        let right = self.direction.cross(&self.up).normalized();
        let up2 = right.cross(&self.direction).normalized();
        let dir = self.direction.add(&right.scale(u1)).add(&up2.scale(v1)).normalized();
        Ray { origin: self.position, direction: dir }
    }
}

} // verus!
