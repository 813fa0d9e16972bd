//! The recursive light-transport tracer and the pixel-sampling renderer.
//!
//! Every random draw comes from a per-pixel generator seeded from the
//! render seed and the pixel coordinates, so a seeded render is a pure
//! function of its inputs, reproducible bit for bit, and rows can be
//! rendered independently (and so in parallel) with the same result.

use vstd::prelude::*;
use crate::fp::{SCALE, EPS, fadd, fsub, fmul, fdiv, fmax, fclamp, fabs, sqrt_floor, sat64,
    tone_gamma, fp_add, fp_sub, fp_mul, fp_div, fp_max, fp_clamp, fp_sqrt, tone_map_gamma,
    lemma_fmul_nonneg, lemma_fmul_sq_nonneg};
use crate::lighting::PointLight;
use crate::materials::{Material, PI_FP, F0_DIELECTRIC, ggx_spec, smith_spec, fresnel_spec,
    channel_to_u8, channel_u8};
use crate::math::intersection::Intersection;
use crate::math::ray::Ray;
use crate::math::vec3::{Vec3, v_add, v_sub, v_mul, v_scale, v_sdiv, v_dot, v_cross, v_len,
    v_norm};
use crate::rng::{Rng, next_state, sample_of, pixel_seed};
use crate::scene::{Scene, scene_hit_spec};
use crate::scene::camera::{Camera, generate_ray_spec};
use crate::trig::{sin_deg_spec, cos_deg_spec, sin_deg, cos_deg};

verus! {

/// The radius of the virtual light disc used for soft shadows (0.5
/// world units).
pub const LIGHT_RADIUS: i64 = 512;

/// How many shadow rays sample the light disc per light.
pub const SHADOW_SAMPLES: u64 = 8;

/// The recursive tracer with its camera and recursion budget.
pub struct Raytracer {
    pub camera: Camera,
    pub max_depth: u32,
}

/// A rendered image: a row-major buffer of 8-bit RGB pixels.
pub struct Image {
    pub width: u32,
    pub height: u32,
    pub pixels: Vec<(u8, u8, u8)>,
}

/// Mirror reflection of `incident` about `normal`:
/// `incident - 2 (incident . normal) normal`.
pub open spec fn reflect_spec(incident: Vec3, normal: Vec3) -> Vec3 {
    v_sub(incident, v_scale(normal, fadd(v_dot(incident, normal), v_dot(incident, normal))))
}

/// Whether the shadow ray of sample `i` (with disc radius drawn from the
/// fixed-point sample `u`) is blocked before it reaches its point on the
/// light disc.
#[verifier::opaque]
pub open spec fn sample_occluded_spec(
    scene: Scene,
    point: Vec3,
    shadow_origin: Vec3,
    right: Vec3,
    forward: Vec3,
    light_pos: Vec3,
    i: int,
    u: int,
) -> bool {
    let c = cos_deg_spec(45 * i);
    let s = sin_deg_spec(45 * i);
    let radius = fmul(LIGHT_RADIUS as int, sat64(sqrt_floor(u * SCALE as int)));
    let offset = v_add(v_scale(right, fmul(radius, c)), v_scale(forward, fmul(radius, s)));
    let sample_pos = v_add(light_pos, offset);
    let sdir = v_norm(v_sub(sample_pos, point));
    let sdist = v_len(v_sub(sample_pos, point));
    let sray = Ray { origin: shadow_origin, direction: sdir };
    match scene_hit_spec(scene, sray) {
        Some(h) => h.distance < fsub(sdist, EPS as int),
        None => false,
    }
}

/// The unoccluded count and generator state after the first `n` shadow
/// samples.
pub open spec fn shadow_loop_spec(
    scene: Scene,
    point: Vec3,
    shadow_origin: Vec3,
    right: Vec3,
    forward: Vec3,
    light_pos: Vec3,
    st: int,
    n: int,
) -> (int, int)
    decreases n,
{
    if n <= 0 {
        (0, st)
    } else {
        let prev = shadow_loop_spec(scene, point, shadow_origin, right, forward, light_pos, st,
            n - 1);
        let s1 = next_state(prev.1);
        let u = sample_of(s1);
        let occ = sample_occluded_spec(scene, point, shadow_origin, right, forward, light_pos,
            n - 1, u);
        if occ {
            (prev.0, s1)
        } else {
            (prev.0 + 1, s1)
        }
    }
}

/// The frame of the soft-shadow sampler: the offset shadow-ray origin
/// and the two unit vectors spanning the light disc (built over world up
/// unless the light direction runs nearly vertical).
#[verifier::opaque]
pub open spec fn shadow_frame_spec(point: Vec3, normal: Vec3, light: PointLight) -> (
    Vec3,
    Vec3,
    Vec3,
) {
    let ld = v_norm(v_sub(light.position, point));
    let shadow_origin = v_add(point, v_scale(normal, EPS as int));
    let up = if fabs(ld.y as int) < 922 {
        Vec3 { x: 0, y: 1024, z: 0 }
    } else {
        Vec3 { x: 1024, y: 0, z: 0 }
    };
    let right = v_norm(v_cross(ld, up));
    let forward = v_norm(v_cross(right, ld));
    (shadow_origin, right, forward)
}

/// Soft-shadow visibility of `light` from `point`: eight stratified
/// samples on a light disc of radius 0.5 facing the point; the factor is
/// the unoccluded fraction in fixed point (`count * 1024 / 8`).
#[verifier::opaque]
pub open spec fn shadow_factor_spec(
    scene: Scene,
    point: Vec3,
    normal: Vec3,
    light: PointLight,
    st: int,
) -> (int, int) {
    let fr = shadow_frame_spec(point, normal, light);
    let res = shadow_loop_spec(scene, point, fr.0, fr.1, fr.2, light.position, st,
        SHADOW_SAMPLES as int);
    (res.0 * 128, res.1)
}

/// The Cook-Torrance plus Lambert contribution of one light, already
/// weighted by the shadow factor `sf`.  Cosines are clamped into
/// `[0, 1]`; the specular denominator carries one extra fixed-point step
/// against grazing-angle division by zero.
#[verifier::opaque]
pub open spec fn light_contrib_spec(
    hit: Intersection,
    view_dir: Vec3,
    light: PointLight,
    sf: int,
) -> Vec3 {
    let light_dir = v_norm(v_sub(light.position, hit.point));
    let distance = v_len(v_sub(light.position, hit.point));
    let att = fdiv(SCALE as int, fmax(fmul(distance, distance), 1));
    let radiance = v_scale(light.color, fmul(light.intensity as int, att));
    let h = v_norm(v_add(view_dir, light_dir));
    let ndv = fclamp(v_dot(hit.normal, view_dir), 0, SCALE as int);
    let ndl = fclamp(v_dot(hit.normal, light_dir), 0, SCALE as int);
    let ndh = fclamp(v_dot(hit.normal, h), 0, SCALE as int);
    let vdh = fclamp(v_dot(view_dir, h), 0, SCALE as int);
    let f0 = if hit.material.metallic > 512 {
        hit.material.albedo
    } else {
        Vec3 { x: F0_DIELECTRIC, y: F0_DIELECTRIC, z: F0_DIELECTRIC }
    };
    let rough = fclamp(hit.material.roughness as int, 0, SCALE as int);
    let ndf = ggx_spec(ndh, rough);
    let g = smith_spec(ndv, ndl, rough);
    let f = fresnel_spec(vdh, f0);
    let numerator = v_scale(f, fmul(ndf, g));
    let denom = fadd(fmul(4 * SCALE as int, fmul(ndv, ndl)), 1);
    let specular = v_sdiv(numerator, denom);
    let kd = v_scale(v_sub(Vec3 { x: SCALE, y: SCALE, z: SCALE }, f),
        fsub(SCALE as int, hit.material.metallic as int));
    let diffuse = v_sdiv(hit.material.albedo, PI_FP as int);
    v_scale(v_scale(v_mul(v_add(v_mul(kd, diffuse), specular), radiance), ndl), sf)
}

/// The summed direct lighting and generator state after the first `n`
/// lights; a fully shadowed light contributes nothing and its BRDF is
/// never evaluated.
pub open spec fn lights_loop_spec(
    scene: Scene,
    hit: Intersection,
    view_dir: Vec3,
    st: int,
    n: int,
) -> (Vec3, int)
    decreases n,
{
    if n <= 0 {
        (Vec3 { x: 0, y: 0, z: 0 }, st)
    } else {
        let prev = lights_loop_spec(scene, hit, view_dir, st, n - 1);
        let light = scene.lights[n - 1];
        let sres = shadow_factor_spec(scene, hit.point, hit.normal, light, prev.1);
        if sres.0 > 0 {
            (v_add(prev.0, light_contrib_spec(hit, view_dir, light, sres.0)), sres.1)
        } else {
            (prev.0, sres.1)
        }
    }
}

/// Direct illumination at a hit point: a fixed ambient term
/// (`0.03 * albedo * ao`), the shadowed per-light contributions, and the
/// emission, tone mapped (Reinhard) and gamma encoded per channel.
#[verifier::opaque]
pub open spec fn pbr_lighting_spec(
    scene: Scene,
    hit: Intersection,
    view_dir: Vec3,
    st: int,
) -> (Vec3, int) {
    let ambient = v_scale(v_mul(Vec3 { x: 31, y: 31, z: 31 }, hit.material.albedo),
        hit.material.ao as int);
    let lres = lights_loop_spec(scene, hit, view_dir, st, scene.lights.len() as int);
    let color = v_add(v_add(ambient, lres.0), hit.material.emission);
    let mapped = Vec3 {
        x: tone_gamma(color.x as int) as i64,
        y: tone_gamma(color.y as int) as i64,
        z: tone_gamma(color.z as int) as i64,
    };
    (mapped, lres.1)
}

/// The color a ray gathers: black once the recursion budget is spent,
/// the background on a miss, else direct lighting blended with a traced
/// mirror reflection on reflective surfaces (metallic, or roughness
/// under 0.3), metals tinting the reflection by their albedo.
#[verifier::opaque]
pub open spec fn trace_spec(
    max_depth: int,
    scene: Scene,
    ray: Ray,
    depth: int,
    st: int,
) -> (Vec3, int)
    decreases max_depth - depth, 1int,
{
    if depth >= max_depth {
        (Vec3 { x: 0, y: 0, z: 0 }, st)
    } else {
        match scene_hit_spec(scene, ray) {
            Some(hit) => {
                let view_dir = v_scale(ray.direction, -1024);
                let pres = pbr_lighting_spec(scene, hit, view_dir, st);
                if hit.material.metallic > 0 || hit.material.roughness < 307 {
                    let rres = reflection_spec(max_depth, scene, hit, view_dir, depth, pres.1);
                    let strength = fmax(hit.material.metallic as int,
                        fsub(SCALE as int, hit.material.roughness as int));
                    let hs = fmul(strength, 512);
                    (v_add(v_scale(pres.0, fsub(SCALE as int, hs)), v_scale(rres.0, hs)), rres.1)
                } else {
                    pres
                }
            },
            None => (scene.background_color, st),
        }
    }
}

/// The mirror-reflection color at a hit: a ray reflected about the
/// normal, offset off the surface, traced one level deeper; metals tint
/// it by their albedo.
#[verifier::opaque]
pub open spec fn reflection_spec(
    max_depth: int,
    scene: Scene,
    hit: Intersection,
    view_dir: Vec3,
    depth: int,
    st: int,
) -> (Vec3, int)
    decreases max_depth - depth, 0int,
{
    if depth >= max_depth {
        (Vec3 { x: 0, y: 0, z: 0 }, st)
    } else {
        let incident = v_scale(view_dir, -1024);
        let reflect_dir = v_norm(reflect_spec(incident, hit.normal));
        let rray = Ray {
            origin: v_add(hit.point, v_scale(hit.normal, EPS as int)),
            direction: reflect_dir,
        };
        let tres = trace_spec(max_depth, scene, rray, depth + 1, st);
        if hit.material.metallic > 512 {
            (v_mul(tres.0, hit.material.albedo), tres.1)
        } else {
            tres
        }
    }
}

/// The accumulated color and generator state after the first `n`
/// samples of pixel `(x, y)`: per sample two jitter draws, a primary
/// ray, and a full trace.
pub open spec fn sample_loop_spec(
    max_depth: int,
    cam: Camera,
    scene: Scene,
    w: int,
    h: int,
    x: int,
    y: int,
    st: int,
    n: int,
) -> (Vec3, int)
    decreases n,
{
    if n <= 0 {
        (Vec3 { x: 0, y: 0, z: 0 }, st)
    } else {
        let prev = sample_loop_spec(max_depth, cam, scene, w, h, x, y, st, n - 1);
        let s1 = next_state(prev.1);
        let ox = sample_of(s1);
        let s2 = next_state(s1);
        let oy = sample_of(s2);
        let ray = generate_ray_spec(cam, x, y, w, h, ox, oy);
        let tres = trace_spec(max_depth, scene, ray, 0, s2);
        (v_add(prev.0, tres.0), tres.1)
    }
}

/// The color of pixel `(x, y)` of a seeded render: the average of its
/// jittered samples.
pub open spec fn pixel_color_spec(
    max_depth: int,
    cam: Camera,
    scene: Scene,
    w: int,
    h: int,
    samples: int,
    seed: int,
    x: int,
    y: int,
) -> Vec3 {
    let st0 = pixel_seed(seed, x, y);
    let sres = sample_loop_spec(max_depth, cam, scene, w, h, x, y, st0, samples);
    v_sdiv(sres.0, 1024 * samples)
}

/// The 8-bit pixel of a seeded render: the averaged color clamped into
/// `[0, 1]` and scaled per channel.  Opaque: the render loops treat a
/// pixel as one unit.
#[verifier::opaque]
pub open spec fn pixel_rgb_spec(
    max_depth: int,
    cam: Camera,
    scene: Scene,
    w: int,
    h: int,
    samples: int,
    seed: int,
    x: int,
    y: int,
) -> (u8, u8, u8) {
    let c = pixel_color_spec(max_depth, cam, scene, w, h, samples, seed, x, y);
    (
        channel_to_u8(c.x as int) as u8,
        channel_to_u8(c.y as int) as u8,
        channel_to_u8(c.z as int) as u8,
    )
}

/// `img` is the complete `width x height` render of `scene` under
/// `seed`: every row-major pixel is the seeded pixel function's answer.
pub open spec fn render_matches(
    max_depth: int,
    cam: Camera,
    scene: Scene,
    width: int,
    height: int,
    samples: int,
    seed: int,
    img: Image,
) -> bool {
    &&& img.pixels.len() == width * height
    &&& forall|k: int|
        0 <= k < width * height ==> img.pixels[k] == pixel_rgb_spec(max_depth, cam, scene, width,
            height, samples, seed, k % width, k / width)
}

/// When every sample the generator can draw is occluded, no sample
/// counts.
proof fn lemma_shadow_loop_all_occluded(
    scene: Scene,
    point: Vec3,
    shadow_origin: Vec3,
    right: Vec3,
    forward: Vec3,
    light_pos: Vec3,
    st: int,
    n: int,
)
    requires
        forall|i: int, u: int|
            0 <= i < n && 0 <= u < 1024 ==> sample_occluded_spec(scene, point, shadow_origin,
                right, forward, light_pos, i, u),
    ensures
        shadow_loop_spec(scene, point, shadow_origin, right, forward, light_pos, st, n).0 == 0,
    decreases n,
{
    if n > 0 {
        lemma_shadow_loop_all_occluded(scene, point, shadow_origin, right, forward, light_pos, st,
            n - 1);
        let prev = shadow_loop_spec(scene, point, shadow_origin, right, forward, light_pos, st,
            n - 1);
        crate::rng::lemma_sample_of_range(next_state(prev.1));
    }
}

/// When no sample the generator can draw is occluded, every sample
/// counts.
proof fn lemma_shadow_loop_none_occluded(
    scene: Scene,
    point: Vec3,
    shadow_origin: Vec3,
    right: Vec3,
    forward: Vec3,
    light_pos: Vec3,
    st: int,
    n: int,
)
    requires
        n >= 0,
        forall|i: int, u: int|
            0 <= i < n && 0 <= u < 1024 ==> !sample_occluded_spec(scene, point, shadow_origin,
                right, forward, light_pos, i, u),
    ensures
        shadow_loop_spec(scene, point, shadow_origin, right, forward, light_pos, st, n).0 == n,
    decreases n,
{
    if n > 0 {
        lemma_shadow_loop_none_occluded(scene, point, shadow_origin, right, forward, light_pos,
            st, n - 1);
        let prev = shadow_loop_spec(scene, point, shadow_origin, right, forward, light_pos, st,
            n - 1);
        crate::rng::lemma_sample_of_range(next_state(prev.1));
    }
}

/// A light whose disc is blocked in every direction the sampler can
/// pick yields visibility zero, whatever the generator state.
pub proof fn lemma_shadow_fully_blocked(
    scene: Scene,
    point: Vec3,
    normal: Vec3,
    light: PointLight,
    st: int,
)
    requires
        forall|i: int, u: int|
            0 <= i < 8 && 0 <= u < 1024 ==> sample_occluded_spec(scene, point,
                shadow_frame_spec(point, normal, light).0, shadow_frame_spec(point, normal,
                light).1, shadow_frame_spec(point, normal, light).2, light.position, i, u),
    ensures
        shadow_factor_spec(scene, point, normal, light, st).0 == 0,
{
    reveal(shadow_factor_spec);
    let fr = shadow_frame_spec(point, normal, light);
    lemma_shadow_loop_all_occluded(scene, point, fr.0, fr.1, fr.2, light.position, st, 8);
}

/// A light whose disc is clear in every direction the sampler can pick
/// yields full visibility, whatever the generator state.
pub proof fn lemma_shadow_unobstructed(
    scene: Scene,
    point: Vec3,
    normal: Vec3,
    light: PointLight,
    st: int,
)
    requires
        forall|i: int, u: int|
            0 <= i < 8 && 0 <= u < 1024 ==> !sample_occluded_spec(scene, point,
                shadow_frame_spec(point, normal, light).0, shadow_frame_spec(point, normal,
                light).1, shadow_frame_spec(point, normal, light).2, light.position, i, u),
    ensures
        shadow_factor_spec(scene, point, normal, light, st).0 == 1024,
{
    reveal(shadow_factor_spec);
    let fr = shadow_frame_spec(point, normal, light);
    lemma_shadow_loop_none_occluded(scene, point, fr.0, fr.1, fr.2, light.position, st, 8);
}

/// Two images of the same seeded render agree pixel for pixel: a seeded
/// render is reproducible bit for bit.
pub proof fn lemma_seeded_render_reproducible(
    max_depth: int,
    cam: Camera,
    scene: Scene,
    width: int,
    height: int,
    samples: int,
    seed: int,
    img1: Image,
    img2: Image,
)
    requires
        render_matches(max_depth, cam, scene, width, height, samples, seed, img1),
        render_matches(max_depth, cam, scene, width, height, samples, seed, img2),
    ensures
        img1.pixels@ == img2.pixels@,
{
    assert(img1.pixels@ =~= img2.pixels@);
}

/// Draws the seed of an unseeded render.  Relies on fastrand::u64 over
/// the full range, which never panics; nothing is promised of the
/// value.
#[verifier::external_body]
fn random_seed() -> u64 {
    fastrand::u64(..)
}

impl Raytracer {
    /// A tracer with a recursion budget of 10.
    pub fn new(camera: Camera) -> (rt: Raytracer)
        ensures
            rt.camera == camera,
            rt.max_depth == 10u32,
    {
        Raytracer { camera, max_depth: 10 }
    }

    /// Mirror reflection of `incident` about `normal`.
    fn reflect(&self, incident: Vec3, normal: Vec3) -> (r: Vec3)
        ensures
            r == reflect_spec(incident, normal),
    {
        let d = incident.dot(&normal);
        incident.sub(&normal.scale(fp_add(d, d)))
    }

    /// Soft-shadow visibility of `light` from `point`; see
    /// `shadow_factor_spec`.
    pub fn calculate_shadow_factor(
        &self,
        scene: &Scene,
        point: Vec3,
        normal: Vec3,
        light: &PointLight,
        rng: &mut Rng,
    ) -> (r: i64)
        ensures
            (r as int, final(rng).state as int) == shadow_factor_spec(*scene, point, normal,
                *light, old(rng).state as int),
            0 <= r <= 1024,
    {
        proof {
            reveal(shadow_factor_spec);
            reveal(shadow_frame_spec);
            reveal(sample_occluded_spec);
        }
        let ld = light.position.sub(&point).normalized();
        let shadow_origin = point.add(&normal.scale(EPS));
        let up = if crate::fp::fp_abs(ld.y) < 922 {
            Vec3 { x: 0, y: 1024, z: 0 }
        } else {
            Vec3 { x: 1024, y: 0, z: 0 }
        };
        let right = ld.cross(&up).normalized();
        let forward = right.cross(&ld).normalized();
        proof {
            assert((shadow_origin, right, forward) == shadow_frame_spec(point, normal, *light));
        }
        let mut count: i64 = 0;
        let mut i: u64 = 0;
        while i < SHADOW_SAMPLES
            invariant
                0 <= i <= SHADOW_SAMPLES,
                0 <= count <= i,
                (count as int, rng.state as int) == shadow_loop_spec(*scene, point, shadow_origin,
                    right, forward, light.position, old(rng).state as int, i as int),
            decreases SHADOW_SAMPLES - i,
        {
            proof {
                reveal(sample_occluded_spec);
            }
            let u = rng.next_fp();
            let c = cos_deg(45 * (i as i64));
            let s = sin_deg(45 * (i as i64));
            let radius = fp_mul(LIGHT_RADIUS, fp_sqrt(u));
            let offset = right.scale(fp_mul(radius, c)).add(&forward.scale(fp_mul(radius, s)));
            let sample_pos = light.position.add(&offset);
            let sdir = sample_pos.sub(&point).normalized();
            let sdist = sample_pos.sub(&point).length();
            let sray = Ray::new(shadow_origin, sdir);
            let occluded = match scene.hit(&sray) {
                Some(h) => h.distance < fp_sub(sdist, EPS),
                None => false,
            };
            if !occluded {
                count = count + 1;
            }
            i = i + 1;
        }
        count * 128
    }

    /// The shadowed contribution of one light; see `light_contrib_spec`.
    fn light_contribution(
        &self,
        hit: &Intersection,
        view_dir: Vec3,
        light: &PointLight,
        sf: i64,
    ) -> (r: Vec3)
        ensures
            r == light_contrib_spec(*hit, view_dir, *light, sf as int),
    {
        proof {
            reveal(light_contrib_spec);
        }
        let light_dir = light.position.sub(&hit.point).normalized();
        let distance = light.position.sub(&hit.point).length();
        proof {
            lemma_fmul_sq_nonneg(distance as int);
        }
        let att = fp_div(SCALE, fp_max(fp_mul(distance, distance), 1));
        let radiance = light.color.scale(fp_mul(light.intensity, att));
        let h = view_dir.add(&light_dir).normalized();
        let ndv = fp_clamp(hit.normal.dot(&view_dir), 0, SCALE);
        let ndl = fp_clamp(hit.normal.dot(&light_dir), 0, SCALE);
        let ndh = fp_clamp(hit.normal.dot(&h), 0, SCALE);
        let vdh = fp_clamp(view_dir.dot(&h), 0, SCALE);
        let f0 = hit.material.get_f0();
        let rough = fp_clamp(hit.material.roughness, 0, SCALE);
        let ndf = Material::distribution_ggx(ndh, rough);
        let g = Material::geometry_smith(ndv, ndl, rough);
        let f = Material::fresnel_schlick(vdh, f0);
        let numerator = f.scale(fp_mul(ndf, g));
        proof {
            lemma_fmul_nonneg(ndv as int, ndl as int);
            lemma_fmul_nonneg(4 * SCALE as int, fmul(ndv as int, ndl as int));
        }
        let denom = fp_add(fp_mul(4 * SCALE, fp_mul(ndv, ndl)), 1);
        let specular = numerator.sdiv(denom);
        let one = Vec3 { x: SCALE, y: SCALE, z: SCALE };
        let kd = one.sub(&f).scale(fp_sub(SCALE, hit.material.metallic));
        let diffuse = hit.material.albedo.sdiv(PI_FP);
        kd.mul(&diffuse).add(&specular).mul(&radiance).scale(ndl).scale(sf)
    }

    /// Direct illumination at a hit point; see `pbr_lighting_spec`.
    #[verifier::rlimit(100)]
    fn calculate_pbr_lighting(
        &self,
        scene: &Scene,
        hit: &Intersection,
        view_dir: Vec3,
        rng: &mut Rng,
    ) -> (r: Vec3)
        ensures
            (r, final(rng).state as int) == pbr_lighting_spec(*scene, *hit, view_dir,
                old(rng).state as int),
    {
        proof {
            reveal(pbr_lighting_spec);
        }
        let ambient = Vec3 { x: 31, y: 31, z: 31 }.mul(&hit.material.albedo).scale(
            hit.material.ao);
        let mut lo = Vec3 { x: 0, y: 0, z: 0 };
        let n = scene.lights.len();
        let mut i: usize = 0;
        while i < n
            invariant
                n == scene.lights.len(),
                0 <= i <= n,
                (lo, rng.state as int) == lights_loop_spec(*scene, *hit, view_dir,
                    old(rng).state as int, i as int),
            decreases n - i,
        {
            let light = &scene.lights[i];
            let sf = self.calculate_shadow_factor(scene, hit.point, hit.normal, light, rng);
            if sf > 0 {
                let added = self.light_contribution(hit, view_dir, light, sf);
                lo = lo.add(&added);
            }
            i = i + 1;
        }
        let color = ambient.add(&lo).add(&hit.material.emission);
        Vec3 {
            x: tone_map_gamma(color.x),
            y: tone_map_gamma(color.y),
            z: tone_map_gamma(color.z),
        }
    }

    /// The color a ray gathers; see `trace_spec`.  At or past the
    /// recursion budget it is black whatever the scene holds.
    #[verifier::rlimit(100)]
    pub fn trace_ray(&self, scene: &Scene, ray: &Ray, depth: u32, rng: &mut Rng) -> (r: Vec3)
        ensures
            (r, final(rng).state as int) == trace_spec(self.max_depth as int, *scene, *ray,
                depth as int, old(rng).state as int),
            depth >= self.max_depth ==> r == (Vec3 { x: 0i64, y: 0i64, z: 0i64 })
                && final(rng).state == old(rng).state,
        decreases self.max_depth - depth, 1int,
    {
        proof {
            reveal_with_fuel(trace_spec, 1);
            reveal_with_fuel(reflection_spec, 1);
        }
        if depth >= self.max_depth {
            return Vec3 { x: 0, y: 0, z: 0 };
        }
        match scene.hit(ray) {
            Some(hit) => {
                let view_dir = ray.direction.scale(-1024);
                let direct = self.calculate_pbr_lighting(scene, &hit, view_dir, rng);
                if hit.material.metallic > 0 || hit.material.roughness < 307 {
                    let reflected = self.calculate_reflection(scene, &hit, view_dir, depth, rng);
                    let strength = fp_max(hit.material.metallic,
                        fp_sub(SCALE, hit.material.roughness));
                    let hs = fp_mul(strength, 512);
                    direct.scale(fp_sub(SCALE, hs)).add(&reflected.scale(hs))
                } else {
                    direct
                }
            },
            None => scene.background_color,
        }
    }

    /// The traced mirror reflection at a hit; see `reflection_spec`.
    #[verifier::rlimit(100)]
    fn calculate_reflection(
        &self,
        scene: &Scene,
        hit: &Intersection,
        view_dir: Vec3,
        depth: u32,
        rng: &mut Rng,
    ) -> (r: Vec3)
        requires
            depth < self.max_depth,
        ensures
            (r, final(rng).state as int) == reflection_spec(self.max_depth as int, *scene, *hit,
                view_dir, depth as int, old(rng).state as int),
        decreases self.max_depth - depth, 0int,
    {
        proof {
            reveal_with_fuel(reflection_spec, 1);
            reveal_with_fuel(trace_spec, 1);
        }
        let incident = view_dir.scale(-1024);
        let reflect_dir = self.reflect(incident, hit.normal).normalized();
        let reflect_ray = Ray::new(hit.point.add(&hit.normal.scale(EPS)), reflect_dir);
        let reflected_color = self.trace_ray(scene, &reflect_ray, depth + 1, rng);
        if hit.material.metallic > 512 {
            reflected_color.mul(&hit.material.albedo)
        } else {
            reflected_color
        }
    }

    /// A radiance triple as a clamped 8-bit RGB pixel.
    fn vec3_to_rgb(&self, color: Vec3) -> (r: (u8, u8, u8))
        ensures
            r.0 as int == channel_to_u8(color.x as int),
            r.1 as int == channel_to_u8(color.y as int),
            r.2 as int == channel_to_u8(color.z as int),
    {
        (channel_u8(color.x), channel_u8(color.y), channel_u8(color.z))
    }

    /// One pixel of a seeded render; see `pixel_rgb_spec`.
    #[verifier::rlimit(100)]
    fn render_pixel(
        &self,
        scene: &Scene,
        x: u32,
        y: u32,
        width: u32,
        height: u32,
        samples: u32,
        seed: u64,
    ) -> (r: (u8, u8, u8))
        requires
            width > 0,
            height > 0,
            samples > 0,
        ensures
            r == pixel_rgb_spec(self.max_depth as int, self.camera, *scene, width as int,
                height as int, samples as int, seed as int, x as int, y as int),
    {
        proof {
            reveal(pixel_rgb_spec);
        }
        let mut rng = Rng::for_pixel(seed, x, y);
        let ghost st0 = rng.state as int;
        let mut sum = Vec3 { x: 0, y: 0, z: 0 };
        let mut s: u32 = 0;
        while s < samples
            invariant
                0 <= s <= samples,
                width > 0,
                height > 0,
                (sum, rng.state as int) == sample_loop_spec(self.max_depth as int, self.camera,
                    *scene, width as int, height as int, x as int, y as int, st0, s as int),
            decreases samples - s,
        {
            let ox = rng.next_fp();
            let oy = rng.next_fp();
            let ray = self.camera.generate_ray(x, y, width, height, ox, oy);
            let c = self.trace_ray(scene, &ray, 0, &mut rng);
            sum = sum.add(&c);
            s = s + 1;
        }
        let fin = sum.sdiv(1024 * (samples as i64));
        self.vec3_to_rgb(fin)
    }

    /// The pixels of rows `y0..y1` of a seeded render, row-major.  Rows
    /// do not share generator state, so any partition of the image into
    /// row ranges, rendered in any order or in parallel, reassembles to
    /// the very pixels of the whole render.
    pub fn render_rows(
        &self,
        scene: &Scene,
        width: u32,
        height: u32,
        samples: u32,
        seed: u64,
        y0: u32,
        y1: u32,
    ) -> (out: Vec<(u8, u8, u8)>)
        requires
            width > 0,
            height > 0,
            samples > 0,
            y0 <= y1 <= height,
        ensures
            out.len() == (y1 - y0) * width,
            forall|k: int|
                0 <= k < out.len() ==> out[k] == pixel_rgb_spec(self.max_depth as int, self.camera,
                    *scene, width as int, height as int, samples as int, seed as int,
                    k % (width as int), y0 + k / (width as int)),
    {
        let mut out: Vec<(u8, u8, u8)> = Vec::new();
        let mut y: u32 = y0;
        while y < y1
            invariant
                y0 <= y <= y1,
                out.len() == (y - y0) * width,
                forall|k: int|
                    0 <= k < out.len() ==> out[k] == pixel_rgb_spec(self.max_depth as int,
                        self.camera, *scene, width as int, height as int, samples as int,
                        seed as int, k % (width as int), y0 + k / (width as int)),
                width > 0,
                height > 0,
                samples > 0,
                y1 <= height,
            decreases y1 - y,
        {
            let mut x: u32 = 0;
            while x < width
                invariant
                    0 <= x <= width,
                    y0 <= y < y1,
                    out.len() == (y - y0) * width + x,
                    forall|k: int|
                        0 <= k < out.len() ==> out[k] == pixel_rgb_spec(self.max_depth as int,
                            self.camera, *scene, width as int, height as int, samples as int,
                            seed as int, k % (width as int), y0 + k / (width as int)),
                    width > 0,
                    height > 0,
                    samples > 0,
                    y1 <= height,
                decreases width - x,
            {
                let p = self.render_pixel(scene, x, y, width, height, samples, seed);
                proof {
                    vstd::arithmetic::div_mod::lemma_fundamental_div_mod_converse(
                        out.len() as int, width as int, (y - y0) as int, x as int);
                }
                out.push(p);
                x = x + 1;
            }
            proof {
                assert((y - y0 + 1) * (width as int) == (y - y0) * (width as int) + width as int)
                    by (nonlinear_arith);
            }
            y = y + 1;
        }
        out
    }

    /// A full seeded render: deterministic in every input, so the same
    /// seed always reproduces the image bit for bit.
    pub fn render_seeded(
        &self,
        scene: &Scene,
        width: u32,
        height: u32,
        samples: u32,
        seed: u64,
    ) -> (img: Image)
        requires
            width > 0,
            height > 0,
            samples > 0,
        ensures
            img.width == width,
            img.height == height,
            render_matches(self.max_depth as int, self.camera, *scene, width as int,
                height as int, samples as int, seed as int, img),
    {
        let pixels = self.render_rows(scene, width, height, samples, seed, 0, height);
        proof {
            assert((height as int) * (width as int) == (width as int) * (height as int))
                by (nonlinear_arith);
        }
        Image { width, height, pixels }
    }

    /// A render with a freshly drawn seed: the image is some seed's
    /// seeded render, of the requested shape.  It always returns a
    /// complete image; `samples` must be at least one (the pixel average
    /// divides by it).
    pub fn render(&self, scene: &Scene, width: u32, height: u32, samples: u32) -> (img: Image)
        requires
            width > 0,
            height > 0,
            samples > 0,
        ensures
            img.width == width,
            img.height == height,
            exists|s: u64|
                render_matches(self.max_depth as int, self.camera, *scene, width as int,
                    height as int, samples as int, s as int, img),
    {
        let seed = random_seed();
        let img = self.render_seeded(scene, width, height, samples, seed);
        proof {
            assert(render_matches(self.max_depth as int, self.camera, *scene, width as int,
                height as int, samples as int, seed as int, img));
        }
        img
    }
}

} // verus!
