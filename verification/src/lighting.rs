//! Point lights.

use vstd::prelude::*;
use crate::fp::{SCALE, fadd, fmul, fdiv, fp_add, fp_mul, fp_div};
use crate::math::vec3::{Vec3, v_sub, v_len, v_norm};

verus! {

/// A point light: a position, a color, and a scalar intensity.  It has
/// no stored geometry; soft-shadow sampling treats it as a small disc.
#[derive(Clone, Copy, Debug, PartialEq, Eq, Structural)]
pub struct PointLight {
    pub position: Vec3,
    pub color: Vec3,
    pub intensity: i64,
}

/// The unit direction from `point` toward the light.
pub open spec fn direction_to_spec(l: PointLight, point: Vec3) -> Vec3 {
    v_norm(v_sub(l.position, point))
}

/// The light's intensity felt at `point`: the raw intensity divided by
/// `1 + 0.01 * distance^2`.
pub open spec fn intensity_at_spec(l: PointLight, point: Vec3) -> int {
    let d = v_len(v_sub(l.position, point));
    fdiv(l.intensity as int, fadd(SCALE as int, fmul(fmul(d, d), 10)))
}

impl PointLight {
    pub fn new(position: Vec3, color: Vec3, intensity: i64) -> (l: PointLight)
        ensures
            l == (PointLight { position, color, intensity }),
    {
        PointLight { position, color, intensity }
    }

    /// Unit direction from `point` toward the light.
    pub fn direction_to(&self, point: Vec3) -> (r: Vec3)
        ensures
            r == direction_to_spec(*self, point),
    {
        self.position.sub(&point).normalized()
    }

    /// Intensity felt at `point`, attenuated with distance.
    pub fn intensity_at(&self, point: Vec3) -> (r: i64)
        ensures
            r as int == intensity_at_spec(*self, point),
    {
        let d = self.position.sub(&point).length();
        let denom = fp_add(SCALE, fp_mul(fp_mul(d, d), 10));
        proof {
            crate::fp::lemma_fmul_sq_nonneg(d as int);
            crate::fp::lemma_fmul_nonneg(fmul(d as int, d as int), 10);
        }
        fp_div(self.intensity, denom)
    }
}

} // verus!
