//! Geometric primitives and their nearest-hit queries.

pub mod cube;
pub mod plane;
pub mod primitive;
pub mod pyramid;
pub mod sphere;
pub mod triangle;

pub use cube::Cube;
pub use plane::Plane;
pub use primitive::Primitive;
pub use pyramid::Pyramid;
pub use sphere::Sphere;
pub use triangle::Triangle;
