//! Intersection tests against closed-form answers.

use rayst::{Cube, Material, Plane, Primitive, Pyramid, Ray, Scene, Sphere, Triangle, Vec3};

fn red() -> Material {
    Material::new(Vec3::new(1024, 0, 0), 0, 819)
}

fn unit_sphere() -> Sphere {
    Sphere::new(Vec3::new(0, 0, -5120), 1024, red())
}

#[test]
fn sphere_analytic_hit() {
    let ray = Ray::new(Vec3::zero(), Vec3::new(0, 0, -1024));
    let hit = unit_sphere().hit(&ray).unwrap();
    assert_eq!(hit.distance, 4096);
    assert_eq!(hit.point, Vec3::new(0, 0, -4096));
    assert_eq!(hit.normal, Vec3::new(0, 0, 1024));
    assert_eq!(hit.material, red());
}

#[test]
fn sphere_behind_ray_misses() {
    let ray = Ray::new(Vec3::zero(), Vec3::new(0, 0, 1024));
    assert!(unit_sphere().hit(&ray).is_none());
}

#[test]
fn sphere_ray_from_surface_along_normal_misses() {
    let ray = Ray::new(Vec3::new(0, 0, -4096), Vec3::new(0, 0, 1024));
    assert!(unit_sphere().hit(&ray).is_none());
}

#[test]
fn plane_analytic_hit() {
    let plane = Plane::new(Vec3::new(0, -1024, 0), Vec3::new(0, 1024, 0), red());
    let ray = Ray::new(Vec3::zero(), Vec3::new(0, -1024, 0));
    let hit = plane.hit(&ray).unwrap();
    assert_eq!(hit.distance, 1024);
    assert_eq!(hit.point, Vec3::new(0, -1024, 0));
    assert_eq!(hit.normal, Vec3::new(0, 1024, 0));
}

#[test]
fn plane_parallel_ray_misses() {
    let plane = Plane::new(Vec3::new(0, -1024, 0), Vec3::new(0, 1024, 0), red());
    let ray = Ray::new(Vec3::zero(), Vec3::new(1024, 0, 0));
    assert!(plane.hit(&ray).is_none());
}

#[test]
fn plane_ray_from_surface_misses() {
    let plane = Plane::new(Vec3::new(0, -1024, 0), Vec3::new(0, 1024, 0), red());
    let ray = Ray::new(Vec3::new(512, -1024, 0), Vec3::new(0, 1024, 0));
    assert!(plane.hit(&ray).is_none());
}

fn tri() -> Triangle {
    Triangle::new(
        Vec3::new(-1024, -1024, -2048),
        Vec3::new(1024, -1024, -2048),
        Vec3::new(0, 1024, -2048),
        red(),
    )
}

#[test]
fn triangle_interior_hit() {
    let ray = Ray::new(Vec3::zero(), Vec3::new(0, 0, -1024));
    let hit = tri().hit(&ray).unwrap();
    assert_eq!(hit.distance, 2048);
    assert_eq!(hit.point, Vec3::new(0, 0, -2048));
    assert_eq!(hit.normal, Vec3::new(0, 0, 1024));
}

#[test]
fn triangle_edge_is_inclusive() {
    let ray = Ray::new(Vec3::new(0, -1024, 0), Vec3::new(0, 0, -1024));
    let hit = tri().hit(&ray).unwrap();
    assert_eq!(hit.distance, 2048);
    assert_eq!(hit.point, Vec3::new(0, -1024, -2048));
}

#[test]
fn triangle_outside_negative_v_misses() {
    let ray = Ray::new(Vec3::new(0, -2048, 0), Vec3::new(0, 0, -1024));
    assert!(tri().hit(&ray).is_none());
}

#[test]
fn triangle_outside_negative_u_misses() {
    let ray = Ray::new(Vec3::new(-2048, -1024, 0), Vec3::new(0, 0, -1024));
    assert!(tri().hit(&ray).is_none());
}

#[test]
fn triangle_ray_from_surface_along_normal_misses() {
    let ray = Ray::new(Vec3::new(0, 0, -2048), Vec3::new(0, 0, 1024));
    assert!(tri().hit(&ray).is_none());
}

#[test]
fn triangle_behind_ray_misses() {
    let ray = Ray::new(Vec3::zero(), Vec3::new(0, 0, 1024));
    assert!(tri().hit(&ray).is_none());
}

#[test]
fn cube_axis_aligned_hit() {
    let cube = Cube::new(Vec3::new(0, 0, -5120), Vec3::zero(), 2048, red());
    let ray = Ray::new(Vec3::zero(), Vec3::new(0, 0, -1024));
    let hit = cube.hit(&ray).unwrap();
    assert_eq!(hit.distance, 4096);
    assert_eq!(hit.point, Vec3::new(0, 0, -4096));
    assert_eq!(hit.normal, Vec3::new(0, 0, 1024));
}

#[test]
fn cube_parallel_ray_outside_slab_misses() {
    let cube = Cube::new(Vec3::new(0, 0, -5120), Vec3::zero(), 2048, red());
    let ray = Ray::new(Vec3::new(0, 3072, 0), Vec3::new(0, 0, -1024));
    assert!(cube.hit(&ray).is_none());
}

#[test]
fn pyramid_front_face_hit() {
    let pyramid = Pyramid::new(Vec3::new(0, 0, -5120), 2048, 2048, Vec3::zero(), red());
    assert_eq!(pyramid.triangles.len(), 6);
    let ray = Ray::new(Vec3::zero(), Vec3::new(0, 0, -1024));
    let hit = pyramid.hit(&ray).unwrap();
    assert_eq!(hit.distance, 4096);
    assert_eq!(hit.point, Vec3::new(0, 0, -4096));
}

#[test]
fn pyramid_ray_away_misses() {
    let pyramid = Pyramid::new(Vec3::new(0, 0, -5120), 2048, 2048, Vec3::zero(), red());
    let ray = Ray::new(Vec3::zero(), Vec3::new(0, 0, 1024));
    assert!(pyramid.hit(&ray).is_none());
}

#[test]
fn scene_hit_keeps_nearest() {
    let mut scene = Scene::new();
    let far = Material::new(Vec3::new(0, 0, 1024), 0, 819);
    scene.add_object(Primitive::Sphere(Sphere::new(Vec3::new(0, 0, -9216), 1024, far)));
    scene.add_object(Primitive::Sphere(unit_sphere()));
    let ray = Ray::new(Vec3::zero(), Vec3::new(0, 0, -1024));
    let hit = scene.hit(&ray).unwrap();
    assert_eq!(hit.distance, 4096);
    assert_eq!(hit.material.albedo, Vec3::new(1024, 0, 0));
}

#[test]
fn scene_hit_ties_keep_first() {
    let mut scene = Scene::new();
    let green = Material::new(Vec3::new(0, 1024, 0), 0, 819);
    scene.add_object(Primitive::Sphere(Sphere::new(Vec3::new(0, 0, -5120), 1024, green)));
    scene.add_object(Primitive::Sphere(unit_sphere()));
    let ray = Ray::new(Vec3::zero(), Vec3::new(0, 0, -1024));
    let hit = scene.hit(&ray).unwrap();
    assert_eq!(hit.material.albedo, Vec3::new(0, 1024, 0));
}

#[test]
fn empty_scene_misses() {
    let scene = Scene::new();
    let ray = Ray::new(Vec3::zero(), Vec3::new(0, 0, -1024));
    assert!(scene.hit(&ray).is_none());
}
