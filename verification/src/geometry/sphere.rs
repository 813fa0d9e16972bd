//! Spheres and their quadratic intersection test.

use vstd::prelude::*;
use crate::fp::{SCALE, EPS, fadd, fsub, fmul, fdiv, fneg, tdiv, sqrt_floor, fp_add, fp_sub,
    fp_mul, fp_div, fp_neg, fp_sqrt, lemma_sqrt_bound, lemma_sqrt_exists, lemma_fmul_nonneg,
    lemma_tdiv_nonneg, lemma_tdiv_nonpos};
use crate::materials::Material;
use crate::math::intersection::Intersection;
use crate::math::ray::{Ray, ray_at};
use crate::math::vec3::{Vec3, v_sub, v_dot, v_norm, lemma_dot_self_nonneg};

verus! {

#[derive(Clone, Copy, Debug, PartialEq, Eq, Structural)]
pub struct Sphere {
    pub center: Vec3,
    pub radius: i64,
    pub material: Material,
}

/// The quadratic sphere test: solve `|O + tD - C|^2 = r^2` for `t`, keep
/// the smallest root beyond the self-intersection threshold, then the
/// larger one, else report no hit.  A degenerate (zero) direction hits
/// nothing.
pub open spec fn sphere_hit_spec(s: Sphere, r: Ray) -> Option<Intersection> {
    let oc = v_sub(r.origin, s.center);
    let a = v_dot(r.direction, r.direction);
    let od = v_dot(oc, r.direction);
    let b = fadd(od, od);
    let c = fsub(v_dot(oc, oc), fmul(s.radius as int, s.radius as int));
    let disc = fsub(fmul(b, b), fmul(fmul(4 * SCALE as int, a), c));
    if disc < 0 {
        None
    } else if a == 0 {
        None
    } else {
        let sq = sqrt_floor(disc * SCALE as int);
        let two_a = fadd(a, a);
        let t1 = fdiv(fsub(fneg(b), sq), two_a);
        let t2 = fdiv(fadd(fneg(b), sq), two_a);
        if t1 > EPS as int {
            Some(sphere_intersection(s, r, t1))
        } else if t2 > EPS as int {
            Some(sphere_intersection(s, r, t2))
        } else {
            None
        }
    }
}

/// The intersection record for a sphere hit at parameter `t`.
pub open spec fn sphere_intersection(s: Sphere, r: Ray, t: int) -> Intersection {
    let point = ray_at(r, t);
    Intersection {
        distance: t as i64,
        point,
        normal: v_norm(v_sub(point, s.center)),
        material: s.material,
    }
}

impl Sphere {
    pub fn new(center: Vec3, radius: i64, material: Material) -> (s: Sphere)
        ensures
            s == (Sphere { center, radius, material }),
    {
        Sphere { center, radius, material }
    }

    /// Nearest valid intersection of `ray` with the sphere.
    pub fn hit(&self, ray: &Ray) -> (res: Option<Intersection>)
        ensures
            res == sphere_hit_spec(*self, *ray),
            res matches Some(h) ==> h.distance > EPS,
    {
        let oc = ray.origin.sub(&self.center);
        let a = ray.direction.dot(&ray.direction);
        let od = oc.dot(&ray.direction);
        let b = fp_add(od, od);
        let c = fp_sub(oc.dot(&oc), fp_mul(self.radius, self.radius));
        let disc = fp_sub(fp_mul(b, b), fp_mul(fp_mul(4 * SCALE, a), c));
        if disc < 0 {
            return None;
        }
        if a == 0 {
            return None;
        }
        proof {
            lemma_dot_self_nonneg(ray.direction);
        }
        let sq = fp_sqrt(disc);
        let two_a = fp_add(a, a);
        let t1 = fp_div(fp_sub(fp_neg(b), sq), two_a);
        let t2 = fp_div(fp_add(fp_neg(b), sq), two_a);
        let t = if t1 > EPS {
            t1
        } else if t2 > EPS {
            t2
        } else {
            return None;
        };
        let point = ray.at(t);
        let normal = point.sub(&self.center).normalized();
        Some(Intersection::new(t, point, normal, self.material))
    }
}

/// A ray that starts on or outside the sphere (`|O - C|^2 >= r^2` in
/// fixed point) and does not point inward (`(O - C) . D >= 0`) never
/// hits it; in particular a ray leaving a surface point along the
/// outward normal cannot re-hit the sphere.
pub proof fn lemma_ray_leaving_sphere_misses(s: Sphere, r: Ray)
    requires
        v_dot(v_sub(r.origin, s.center), r.direction) >= 0,
        fsub(v_dot(v_sub(r.origin, s.center), v_sub(r.origin, s.center)),
            fmul(s.radius as int, s.radius as int)) >= 0,
    ensures
        sphere_hit_spec(s, r) is None,
{
    let oc = v_sub(r.origin, s.center);
    let a = v_dot(r.direction, r.direction);
    let od = v_dot(oc, r.direction);
    let b = fadd(od, od);
    let c = fsub(v_dot(oc, oc), fmul(s.radius as int, s.radius as int));
    let disc = fsub(fmul(b, b), fmul(fmul(4 * SCALE as int, a), c));
    if disc >= 0 && a != 0 {
        lemma_dot_self_nonneg(r.direction);
        lemma_fmul_nonneg(4 * SCALE as int, a);
        lemma_fmul_nonneg(fmul(4 * SCALE as int, a), c);
        assert(b * b >= 0) by (nonlinear_arith);
        lemma_tdiv_nonneg(b * b, SCALE as int);
        assert(0 <= fmul(b, b) <= tdiv(b * b, SCALE as int));
        assert(disc <= fmul(b, b));
        // disc * SCALE stays below b * b, so the root is at most b.
        vstd::arithmetic::div_mod::lemma_fundamental_div_mod(b * b, SCALE as int);
        vstd::arithmetic::div_mod::lemma_mod_division_less_than_divisor(b * b, SCALE as int);
        assert(tdiv(b * b, SCALE as int) == (b * b) / (SCALE as int));
        assert(disc * SCALE as int <= ((b * b) / (SCALE as int)) * SCALE as int)
            by (nonlinear_arith)
            requires
                disc <= (b * b) / (SCALE as int),
                SCALE == 1024,
        ;
        assert(((b * b) / (SCALE as int)) * SCALE as int <= b * b) by (nonlinear_arith)
            requires
                b * b == SCALE as int * ((b * b) / (SCALE as int)) + (b * b) % (SCALE as int),
                0 <= (b * b) % (SCALE as int),
                SCALE == 1024,
        ;
        lemma_sqrt_exists(disc * SCALE as int);
        let sq = sqrt_floor(disc * SCALE as int);
        lemma_sqrt_bound(sq, disc * SCALE as int, b);
        let two_a = fadd(a, a);
        let n1 = fsub(fneg(b), sq);
        lemma_tdiv_nonpos(n1 * SCALE as int, two_a);
        let n2 = fadd(fneg(b), sq);
        lemma_tdiv_nonpos(n2 * SCALE as int, two_a);
    }
}

} // verus!
