pub mod config;
pub mod fp;
pub mod geometry;
pub mod lighting;
pub mod materials;
pub mod math;
pub mod renderer;
pub mod rng;
pub mod scene;
pub mod trig;

pub use config::{BackgroundConfig, RenderConfig};
pub use geometry::{Cube, Plane, Primitive, Pyramid, Sphere, Triangle};
pub use lighting::PointLight;
pub use materials::Material;
pub use math::intersection::Intersection;
pub use math::ray::Ray;
pub use math::vec3::Vec3;
pub use renderer::image_renderer::ImageRenderer;
pub use renderer::raytracer::{Image, Raytracer};
pub use scene::camera::Camera;
pub use scene::Scene;
