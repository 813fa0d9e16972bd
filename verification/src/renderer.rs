//! The rendering entry points.

pub mod image_renderer;
pub mod raytracer;

pub use image_renderer::ImageRenderer;
pub use raytracer::{Image, Raytracer};
