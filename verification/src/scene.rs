//! The scene: owned primitives, point lights, and background parameters.

pub mod camera;

use vstd::prelude::*;
use crate::fp::EPS;
use crate::lighting::PointLight;
use crate::math::intersection::Intersection;
use crate::math::ray::Ray;
use crate::math::vec3::Vec3;
use crate::geometry::primitive::{Primitive, primitive_hit_spec};

verus! {

/// A scene under render: an insertion-ordered collection of primitives
/// and lights, a background color (per channel in `[0, 1]` fixed point),
/// and an ambient light scalar.  Built once, then read-only.
pub struct Scene {
    pub objects: Vec<Primitive>,
    pub lights: Vec<PointLight>,
    pub background_color: Vec3,
    pub ambient_light: i64,
}

/// The closest primitive hit among the first `n` objects, keeping the
/// earliest of equally distant hits and discarding hits at or inside the
/// self-intersection threshold.
pub open spec fn closest_prim_hit(ps: Seq<Primitive>, r: Ray, n: int) -> Option<Intersection>
    decreases n,
{
    if n <= 0 {
        None
    } else {
        let prev = closest_prim_hit(ps, r, n - 1);
        match primitive_hit_spec(ps[n - 1], r) {
            Some(h) => match prev {
                Some(c) => if h.distance > EPS && h.distance < c.distance {
                    Some(h)
                } else {
                    prev
                },
                None => if h.distance > EPS {
                    Some(h)
                } else {
                    None
                },
            },
            None => prev,
        }
    }
}

/// The nearest hit over the whole scene: the linear scan's answer.
pub open spec fn scene_hit_spec(s: Scene, r: Ray) -> Option<Intersection> {
    closest_prim_hit(s.objects@, r, s.objects@.len() as int)
}

impl Scene {
    /// An empty scene: black background, ambient scalar 0.1.
    pub fn new() -> (s: Scene)
        ensures
            s.objects@ == Seq::<Primitive>::empty(),
            s.lights@ == Seq::<PointLight>::empty(),
            s.background_color == (Vec3 { x: 0i64, y: 0i64, z: 0i64 }),
            s.ambient_light == 102i64,
    {
        Scene {
            objects: Vec::new(),
            lights: Vec::new(),
            background_color: Vec3 { x: 0, y: 0, z: 0 },
            ambient_light: 102,
        }
    }

    pub fn add_object(&mut self, object: Primitive)
        ensures
            final(self).objects@ == old(self).objects@.push(object),
            final(self).lights == old(self).lights,
            final(self).background_color == old(self).background_color,
            final(self).ambient_light == old(self).ambient_light,
    {
        self.objects.push(object);
    }

    pub fn add_light(&mut self, light: PointLight)
        ensures
            final(self).lights@ == old(self).lights@.push(light),
            final(self).objects == old(self).objects,
            final(self).background_color == old(self).background_color,
            final(self).ambient_light == old(self).ambient_light,
    {
        self.lights.push(light);
    }

    /// Nearest valid intersection of `ray` over all primitives.
    pub fn hit(&self, ray: &Ray) -> (res: Option<Intersection>)
        ensures
            res == scene_hit_spec(*self, *ray),
    {
        let mut closest: Option<Intersection> = None;
        let n = self.objects.len();
        let mut i: usize = 0;
        while i < n
            invariant
                n == self.objects@.len(),
                0 <= i <= n,
                closest == closest_prim_hit(self.objects@, *ray, i as int),
            decreases n - i,
        {
            let obj = &self.objects[i];
            match obj.hit(ray) {
                Some(h) => {
                    let take = h.distance > EPS && match closest {
                        Some(c) => h.distance < c.distance,
                        None => true,
                    };
                    if take {
                        closest = Some(h);
                    }
                },
                None => {},
            }
            i = i + 1;
        }
        closest
    }
}

} // verus!
