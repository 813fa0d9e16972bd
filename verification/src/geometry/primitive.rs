//! The closed set of primitive shapes, dispatched by variant.

use vstd::prelude::*;
use crate::math::intersection::Intersection;
use crate::math::ray::Ray;
use crate::geometry::cube::{Cube, cube_hit_spec};
use crate::geometry::plane::{Plane, plane_hit_spec};
use crate::geometry::pyramid::{Pyramid, pyramid_hit_spec};
use crate::geometry::sphere::{Sphere, sphere_hit_spec};
use crate::geometry::triangle::{Triangle, triangle_hit_spec};

verus! {

/// A geometric primitive, one of the five supported shapes.
pub enum Primitive {
    Sphere(Sphere),
    Plane(Plane),
    Cube(Cube),
    Triangle(Triangle),
    Pyramid(Pyramid),
}

/// The nearest-hit answer of whichever shape the primitive is.
pub open spec fn primitive_hit_spec(p: Primitive, r: Ray) -> Option<Intersection> {
    match p {
        Primitive::Sphere(s) => sphere_hit_spec(s, r),
        Primitive::Plane(pl) => plane_hit_spec(pl, r),
        Primitive::Cube(c) => cube_hit_spec(c, r),
        Primitive::Triangle(t) => triangle_hit_spec(t, r),
        Primitive::Pyramid(py) => pyramid_hit_spec(py, r),
    }
}

impl Primitive {
    /// Nearest valid intersection of `ray` with the shape.
    pub fn hit(&self, ray: &Ray) -> (res: Option<Intersection>)
        ensures
            res == primitive_hit_spec(*self, *ray),
    {
        match self {
            Primitive::Sphere(s) => s.hit(ray),
            Primitive::Plane(p) => p.hit(ray),
            Primitive::Cube(c) => c.hit(ray),
            Primitive::Triangle(t) => t.hit(ray),
            Primitive::Pyramid(py) => py.hit(ray),
        }
    }
}

} // verus!
