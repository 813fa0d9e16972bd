//! Triangles, intersected with the Moller-Trumbore algorithm.

use vstd::prelude::*;
use crate::fp::{SCALE, EPS, fdiv, fp_div};
use crate::materials::Material;
use crate::math::intersection::Intersection;
use crate::math::ray::{Ray, ray_at};
use crate::math::vec3::{Vec3, v_sub, v_dot, v_cross, v_norm};

verus! {

/// A triangle with a flat precomputed normal.
#[derive(Clone, Copy, Debug, PartialEq, Eq, Structural)]
pub struct Triangle {
    pub v0: Vec3,
    pub v1: Vec3,
    pub v2: Vec3,
    pub material: Material,
    pub normal: Vec3,
}

/// The triangle `Triangle::new` builds: the normal is the normalized
/// cross product of the two edges from `v0`.
pub open spec fn tri_new(v0: Vec3, v1: Vec3, v2: Vec3, material: Material) -> Triangle {
    Triangle { v0, v1, v2, material, normal: v_norm(v_cross(v_sub(v1, v0), v_sub(v2, v0))) }
}

/// Moller-Trumbore in fixed point.  A zero determinant (ray parallel to
/// the triangle plane, or degenerate geometry) misses; the barycentric
/// coordinates are boundary-inclusive: the hit needs `0 <= u <= 1`,
/// `0 <= v <= 1` and `u + v <= 1`; and the distance must clear the
/// self-intersection threshold.
pub open spec fn triangle_hit_spec(t: Triangle, r: Ray) -> Option<Intersection> {
    let e1 = v_sub(t.v1, t.v0);
    let e2 = v_sub(t.v2, t.v0);
    let h = v_cross(r.direction, e2);
    let det = v_dot(e1, h);
    if det == 0 {
        None
    } else {
        let s = v_sub(r.origin, t.v0);
        let u = fdiv(v_dot(s, h), det);
        if u < 0 || u > SCALE as int {
            None
        } else {
            let q = v_cross(s, e1);
            let v = fdiv(v_dot(r.direction, q), det);
            if v < 0 || u + v > SCALE as int {
                None
            } else {
                let dist = fdiv(v_dot(e2, q), det);
                if dist > EPS as int {
                    Some(Intersection {
                        distance: dist as i64,
                        point: ray_at(r, dist),
                        normal: t.normal,
                        material: t.material,
                    })
                } else {
                    None
                }
            }
        }
    }
}

impl Triangle {
    /// The normal is `normalize(cross(v1 - v0, v2 - v0))`, computed once.
    pub fn new(v0: Vec3, v1: Vec3, v2: Vec3, material: Material) -> (t: Triangle)
        ensures
            t == tri_new(v0, v1, v2, material),
    {
        let edge1 = v1.sub(&v0);
        let edge2 = v2.sub(&v0);
        let normal = edge1.cross(&edge2).normalized();
        Triangle { v0, v1, v2, material, normal }
    }

    /// Nearest valid intersection of `ray` with the triangle.
    pub fn hit(&self, ray: &Ray) -> (res: Option<Intersection>)
        ensures
            res == triangle_hit_spec(*self, *ray),
            res matches Some(h) ==> h.distance > EPS,
    {
        let e1 = self.v1.sub(&self.v0);
        let e2 = self.v2.sub(&self.v0);
        let h = ray.direction.cross(&e2);
        let det = e1.dot(&h);
        if det == 0 {
            return None;
        }
        let s = ray.origin.sub(&self.v0);
        let u = fp_div(s.dot(&h), det);
        if u < 0 || u > SCALE {
            return None;
        }
        let q = s.cross(&e1);
        let v = fp_div(ray.direction.dot(&q), det);
        if v < 0 {
            return None;
        }
        if crate::fp::fp_add(u, v) > SCALE {
            return None;
        }
        let dist = fp_div(e2.dot(&q), det);
        if dist > EPS {
            Some(Intersection::new(dist, ray.at(dist), self.normal, self.material))
        } else {
            None
        }
    }
}

/// Barycentric containment: a ray whose solved coordinates fall outside
/// the triangle (`u < 0`, `v < 0`, or `u + v > 1`) yields no hit.
pub proof fn lemma_outside_barycentric_misses(t: Triangle, r: Ray)
    requires
        ({
            let e1 = v_sub(t.v1, t.v0);
            let e2 = v_sub(t.v2, t.v0);
            let h = v_cross(r.direction, e2);
            let det = v_dot(e1, h);
            let s = v_sub(r.origin, t.v0);
            let q = v_cross(s, e1);
            det != 0 && (fdiv(v_dot(s, h), det) < 0 || fdiv(v_dot(r.direction, q), det) < 0
                || fdiv(v_dot(s, h), det) + fdiv(v_dot(r.direction, q), det) > SCALE as int)
        }),
    ensures
        triangle_hit_spec(t, r) is None,
{
}

} // verus!
