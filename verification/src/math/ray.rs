//! Rays: an origin and a direction.

use vstd::prelude::*;
use crate::math::vec3::{Vec3, v_add, v_scale};

verus! {

/// A ray, immutable once constructed.  Callers that want distances along
/// the ray to be world distances pass a unit-length direction; a zero
/// direction is degenerate and hits nothing.
#[derive(Clone, Copy, Debug, PartialEq, Eq, Structural)]
pub struct Ray {
    pub origin: Vec3,
    pub direction: Vec3,
}

/// The point at parameter `t` along the ray.
pub open spec fn ray_at(r: Ray, t: int) -> Vec3 {
    v_add(r.origin, v_scale(r.direction, t))
}

impl Ray {
    pub fn new(origin: Vec3, direction: Vec3) -> (r: Ray)
        ensures
            r == (Ray { origin, direction }),
    {
        Ray { origin, direction }
    }

    pub fn at(&self, t: i64) -> (p: Vec3)
        ensures
            p == ray_at(*self, t as int),
    {
        self.origin.add(&self.direction.scale(t))
    }
}

} // verus!
