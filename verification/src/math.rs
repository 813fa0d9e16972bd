//! Core math types: vectors, rays, and intersection records.

pub mod intersection;
pub mod mat3;
pub mod ray;
pub mod vec3;
