//! Lighting, shadow sampling, tracing, and end-to-end rendering.

use rayst::{Camera, ImageRenderer, Material, Plane, PointLight, Primitive, Ray, Raytracer, Scene,
    Sphere, Vec3};
use rayst::rng::Rng;

fn red_sphere_scene() -> Scene {
    let mut scene = Scene::new();
    let material = Material::new(Vec3::new(1024, 0, 0), 0, 819);
    scene.add_object(Primitive::Sphere(Sphere::new(Vec3::new(0, 0, -5120), 1024, material)));
    scene.add_light(PointLight::new(Vec3::new(2048, 2048, 0), Vec3::new(1024, 1024, 1024), 10240));
    scene
}

fn camera_looking_down_z() -> Camera {
    // 60 degrees of vertical field of view: tan(30 deg) in fixed point.
    Camera::new(Vec3::zero(), Vec3::new(0, 0, -1024), 591)
}

#[test]
fn camera_center_ray_values() {
    let cam = camera_looking_down_z();
    let ray = cam.generate_ray(0, 0, 2, 2, 512, 512);
    assert_eq!(ray.origin, Vec3::zero());
    assert_eq!(ray.direction, Vec3::new(-273, 273, -948));
}

#[test]
fn light_attenuation() {
    let light = PointLight::new(Vec3::zero(), Vec3::new(1024, 1024, 1024), 10240);
    assert_eq!(light.intensity_at(Vec3::new(0, 0, -1024)), 10140);
    assert_eq!(light.direction_to(Vec3::new(0, 0, -2048)), Vec3::new(0, 0, 1024));
}

#[test]
fn shadow_factor_unobstructed_is_one() {
    let rt = Raytracer::new(camera_looking_down_z());
    let mut scene = Scene::new();
    scene.add_light(PointLight::new(Vec3::new(0, 5120, 0), Vec3::new(1024, 1024, 1024), 10240));
    let light = PointLight::new(Vec3::new(0, 5120, 0), Vec3::new(1024, 1024, 1024), 10240);
    let mut rng = Rng { state: 7 };
    let f = rt.calculate_shadow_factor(&scene, Vec3::zero(), Vec3::new(0, 1024, 0), &light,
        &mut rng);
    assert_eq!(f, 1024);
}

#[test]
fn shadow_factor_fully_blocked_is_zero() {
    let rt = Raytracer::new(camera_looking_down_z());
    let mut scene = Scene::new();
    let opaque = Material::new(Vec3::new(512, 512, 512), 0, 819);
    scene.add_object(Primitive::Plane(Plane::new(Vec3::new(0, 2048, 0), Vec3::new(0, 1024, 0),
        opaque)));
    let light = PointLight::new(Vec3::new(0, 5120, 0), Vec3::new(1024, 1024, 1024), 10240);
    scene.add_light(light);
    let mut rng = Rng { state: 7 };
    let f = rt.calculate_shadow_factor(&scene, Vec3::zero(), Vec3::new(0, 1024, 0), &light,
        &mut rng);
    assert_eq!(f, 0);
}

#[test]
fn trace_at_recursion_budget_is_black() {
    let rt = Raytracer::new(camera_looking_down_z());
    let mut scene = red_sphere_scene();
    scene.background_color = Vec3::new(512, 512, 512);
    let ray = Ray::new(Vec3::zero(), Vec3::new(0, 0, -1024));
    let mut rng = Rng { state: 123 };
    let color = rt.trace_ray(&scene, &ray, 10, &mut rng);
    assert_eq!(color, Vec3::zero());
    assert_eq!(rng.state, 123);
}

#[test]
fn trace_miss_returns_background() {
    let rt = Raytracer::new(camera_looking_down_z());
    let mut scene = red_sphere_scene();
    scene.background_color = Vec3::new(100, 200, 300);
    let ray = Ray::new(Vec3::zero(), Vec3::new(0, 0, 1024));
    let mut rng = Rng { state: 1 };
    assert_eq!(rt.trace_ray(&scene, &ray, 0, &mut rng), Vec3::new(100, 200, 300));
}

#[test]
fn seeded_render_is_reproducible() {
    let rt = Raytracer::new(camera_looking_down_z());
    let scene = red_sphere_scene();
    let img1 = rt.render_seeded(&scene, 2, 2, 1, 42);
    let img2 = rt.render_seeded(&scene, 2, 2, 1, 42);
    assert_eq!(img1.width, 2);
    assert_eq!(img1.height, 2);
    assert_eq!(img1.pixels.len(), 4);
    assert_eq!(img1.pixels, img2.pixels);
}

#[test]
fn render_rows_partition_matches_full_render() {
    let rt = Raytracer::new(camera_looking_down_z());
    let scene = red_sphere_scene();
    let full = rt.render_seeded(&scene, 4, 4, 1, 9);
    let mut stitched = rt.render_rows(&scene, 4, 4, 1, 9, 0, 2);
    let lower = rt.render_rows(&scene, 4, 4, 1, 9, 2, 4);
    stitched.extend(lower);
    assert_eq!(full.pixels, stitched);
}

#[test]
fn render_has_requested_shape() {
    let rt = Raytracer::new(camera_looking_down_z());
    let scene = red_sphere_scene();
    let img = rt.render(&scene, 3, 2, 1);
    assert_eq!(img.width, 3);
    assert_eq!(img.height, 2);
    assert_eq!(img.pixels.len(), 6);
}

#[test]
fn render_lights_the_sphere() {
    // The center pixels look at the lit red sphere: red must dominate,
    // and the red channel must beat the unlit blue channel.
    let rt = Raytracer::new(camera_looking_down_z());
    let scene = red_sphere_scene();
    let img = rt.render_seeded(&scene, 9, 9, 1, 7);
    let center = img.pixels[4 * 9 + 4];
    assert!(center.0 > 0);
    assert!(center.0 >= center.2);
}

#[test]
fn disc_image_is_red_inside_black_outside() {
    let renderer = ImageRenderer::new();
    let img = renderer.render(100, 100);
    assert_eq!(img.width, 100);
    assert_eq!(img.height, 100);
    assert_eq!(img.pixels.len(), 10000);
    assert_eq!(img.pixels[50 * 100 + 50], (255, 0, 0));
    assert_eq!(img.pixels[0], (0, 0, 0));
    // Just inside the radius of 30 pixels along the axis.
    assert_eq!(img.pixels[50 * 100 + 79], (255, 0, 0));
    assert_eq!(img.pixels[50 * 100 + 81], (0, 0, 0));
}
