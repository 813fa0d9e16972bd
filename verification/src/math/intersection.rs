//! The record an intersection query returns.

use vstd::prelude::*;
use crate::materials::Material;
use crate::math::vec3::Vec3;

verus! {

/// A surface hit: the distance along the ray, the world-space hit point,
/// the world-space surface normal, and a copy of the surface material.
#[derive(Clone, Copy, Debug, PartialEq, Eq, Structural)]
pub struct Intersection {
    pub distance: i64,
    pub point: Vec3,
    pub normal: Vec3,
    pub material: Material,
}

impl Intersection {
    pub fn new(distance: i64, point: Vec3, normal: Vec3, material: Material) -> (r: Intersection)
        ensures
            r == (Intersection { distance, point, normal, material }),
    {
        Intersection { distance, point, normal, material }
    }
}

} // verus!
