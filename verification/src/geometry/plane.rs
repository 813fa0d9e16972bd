//! Infinite planes.

use vstd::prelude::*;
use crate::fp::{EPS, fdiv, fp_div};
use crate::materials::Material;
use crate::math::intersection::Intersection;
use crate::math::ray::{Ray, ray_at};
use crate::math::vec3::{Vec3, v_sub, v_dot, v_norm};

verus! {

/// A plane through `point` with unit normal `normal`.
#[derive(Clone, Copy, Debug, PartialEq, Eq, Structural)]
pub struct Plane {
    pub point: Vec3,
    pub normal: Vec3,
    pub material: Material,
}

/// The plane test `t = (P - O)·N / (D·N)`: a ray whose direction has no
/// fixed-point component along the normal counts as parallel and misses;
/// so does a hit at or behind the self-intersection threshold.
pub open spec fn plane_hit_spec(p: Plane, r: Ray) -> Option<Intersection> {
    let den = v_dot(r.direction, p.normal);
    if den == 0 {
        None
    } else {
        let t = fdiv(v_dot(v_sub(p.point, r.origin), p.normal), den);
        if t > EPS as int {
            Some(Intersection {
                distance: t as i64,
                point: ray_at(r, t),
                normal: p.normal,
                material: p.material,
            })
        } else {
            None
        }
    }
}

impl Plane {
    /// The stored normal is the normalized form of the one given.
    pub fn new(point: Vec3, normal: Vec3, material: Material) -> (p: Plane)
        ensures
            p.point == point,
            p.normal == v_norm(normal),
            p.material == material,
    {
        Plane { point, normal: normal.normalized(), material }
    }

    /// Nearest valid intersection of `ray` with the plane.
    pub fn hit(&self, ray: &Ray) -> (res: Option<Intersection>)
        ensures
            res == plane_hit_spec(*self, *ray),
            res matches Some(h) ==> h.distance > EPS,
    {
        let den = ray.direction.dot(&self.normal);
        if den == 0 {
            return None;
        }
        let t = fp_div(self.point.sub(&ray.origin).dot(&self.normal), den);
        if t > EPS {
            Some(Intersection::new(t, ray.at(t), self.normal, self.material))
        } else {
            None
        }
    }
}

/// A ray parallel to a plane (no direction component along the normal)
/// never hits it.
pub proof fn lemma_parallel_ray_misses_plane(p: Plane, r: Ray)
    requires
        v_dot(r.direction, p.normal) == 0,
    ensures
        plane_hit_spec(p, r) is None,
{
}

/// A ray that starts on the plane cannot re-hit it: the solved distance
/// is zero, which the self-intersection threshold rejects.
pub proof fn lemma_ray_from_plane_surface_misses(p: Plane, r: Ray)
    requires
        v_dot(v_sub(p.point, r.origin), p.normal) == 0,
    ensures
        plane_hit_spec(p, r) is None,
{
    let den = v_dot(r.direction, p.normal);
    if den != 0 {
        vstd::arithmetic::div_mod::lemma_div_of0(crate::fp::abs_int(den));
        assert(fdiv(0, den) == 0);
    }
}

} // verus!
