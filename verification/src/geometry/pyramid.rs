//! Square-based pyramids, realized as six world-space triangles at
//! construction time (two for the base, four lateral faces).

use vstd::prelude::*;
use crate::fp::{EPS, fmul, fp_mul, fp_neg};
use crate::materials::Material;
use crate::math::intersection::Intersection;
use crate::math::mat3::{Mat3, mat_vec_spec, rot_zyx_spec};
use crate::math::ray::Ray;
use crate::math::vec3::{Vec3, v_add};
use crate::geometry::triangle::{Triangle, tri_new, triangle_hit_spec};

verus! {

/// A pyramid with a square base of edge `base_size` centered at
/// `base_center`, apex `height` above it, rotated by Euler angles
/// (whole degrees, combined Z*Y*X).
pub struct Pyramid {
    pub base_center: Vec3,
    pub base_size: i64,
    pub height: i64,
    pub rotation: Vec3,
    pub material: Material,
    pub triangles: Vec<Triangle>,
}

/// A base corner or the apex, carried into world space.
pub open spec fn pyr_point(center: Vec3, m: Mat3, local: Vec3) -> Vec3 {
    v_add(center, mat_vec_spec(m, local))
}

/// The six triangles of a pyramid: base fan `0-2-1`, `0-3-2`, then the
/// four lateral faces joining each base edge to the apex.
pub open spec fn pyramid_triangles_spec(
    base_center: Vec3,
    base_size: int,
    height: i64,
    rotation: Vec3,
    material: Material,
) -> Seq<Triangle> {
    let m = rot_zyx_spec(rotation.x as int, rotation.y as int, rotation.z as int);
    let half = fmul(base_size, 512) as i64;
    let neg = crate::fp::fneg(half as int) as i64;
    let b0 = pyr_point(base_center, m, Vec3 { x: neg, y: 0, z: neg });
    let b1 = pyr_point(base_center, m, Vec3 { x: half, y: 0, z: neg });
    let b2 = pyr_point(base_center, m, Vec3 { x: half, y: 0, z: half });
    let b3 = pyr_point(base_center, m, Vec3 { x: neg, y: 0, z: half });
    let apex = pyr_point(base_center, m, Vec3 { x: 0, y: height, z: 0 });
    seq![
        tri_new(b0, b2, b1, material),
        tri_new(b0, b3, b2, material),
        tri_new(b0, b1, apex, material),
        tri_new(b1, b2, apex, material),
        tri_new(b2, b3, apex, material),
        tri_new(b3, b0, apex, material),
    ]
}

/// The closest triangle hit among the first `n` triangles, keeping the
/// earliest of equally distant hits and discarding hits at or inside the
/// self-intersection threshold.
pub open spec fn closest_tri_hit(ts: Seq<Triangle>, r: Ray, n: int) -> Option<Intersection>
    decreases n,
{
    if n <= 0 {
        None
    } else {
        let prev = closest_tri_hit(ts, r, n - 1);
        match triangle_hit_spec(ts[n - 1], r) {
            Some(h) => match prev {
                Some(c) => if h.distance > EPS && h.distance < c.distance {
                    Some(h)
                } else {
                    prev
                },
                None => if h.distance > EPS {
                    Some(h)
                } else {
                    None
                },
            },
            None => prev,
        }
    }
}

/// The nearest hit among the pyramid's six triangles.
pub open spec fn pyramid_hit_spec(p: Pyramid, r: Ray) -> Option<Intersection> {
    closest_tri_hit(p.triangles@, r, p.triangles@.len() as int)
}

impl Pyramid {
    /// Build the pyramid and fix its six world-space triangles.
    #[verifier::rlimit(60)]
    pub fn new(
        base_center: Vec3,
        base_size: i64,
        height: i64,
        rotation: Vec3,
        material: Material,
    ) -> (p: Pyramid)
        ensures
            p.base_center == base_center,
            p.base_size == base_size,
            p.height == height,
            p.rotation == rotation,
            p.material == material,
            p.triangles@ == pyramid_triangles_spec(base_center, base_size as int, height, rotation,
                material),
    {
        let m = Mat3::rotation_zyx(rotation.x, rotation.y, rotation.z);
        let half = fp_mul(base_size, 512);
        let neg = fp_neg(half);
        let b0 = base_center.add(&m.mul_vec(&Vec3 { x: neg, y: 0, z: neg }));
        let b1 = base_center.add(&m.mul_vec(&Vec3 { x: half, y: 0, z: neg }));
        let b2 = base_center.add(&m.mul_vec(&Vec3 { x: half, y: 0, z: half }));
        let b3 = base_center.add(&m.mul_vec(&Vec3 { x: neg, y: 0, z: half }));
        let apex = base_center.add(&m.mul_vec(&Vec3 { x: 0, y: height, z: 0 }));
        let mut triangles: Vec<Triangle> = Vec::new();
        triangles.push(Triangle::new(b0, b2, b1, material));
        triangles.push(Triangle::new(b0, b3, b2, material));
        triangles.push(Triangle::new(b0, b1, apex, material));
        triangles.push(Triangle::new(b1, b2, apex, material));
        triangles.push(Triangle::new(b2, b3, apex, material));
        triangles.push(Triangle::new(b3, b0, apex, material));
        proof {
            assert(triangles@ =~= pyramid_triangles_spec(base_center, base_size as int, height,
                rotation, material));
        }
        Pyramid { base_center, base_size, height, rotation, material, triangles }
    }

    /// Nearest valid intersection of `ray` among the six triangles.
    pub fn hit(&self, ray: &Ray) -> (res: Option<Intersection>)
        ensures
            res == pyramid_hit_spec(*self, *ray),
    {
        let mut closest: Option<Intersection> = None;
        let n = self.triangles.len();
        let mut i: usize = 0;
        while i < n
            invariant
                n == self.triangles@.len(),
                0 <= i <= n,
                closest == closest_tri_hit(self.triangles@, *ray, i as int),
            decreases n - i,
        {
            let tri = &self.triangles[i];
            match tri.hit(ray) {
                Some(h) => {
                    let take = h.distance > EPS && match closest {
                        Some(c) => h.distance < c.distance,
                        None => true,
                    };
                    if take {
                        closest = Some(h);
                    }
                },
                None => {},
            }
            i = i + 1;
        }
        closest
    }
}

} // verus!
