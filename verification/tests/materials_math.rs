//! Scalar math, trigonometry, and BRDF term checks.

use rayst::{Material, Vec3};
use rayst::fp::{fp_add, fp_div, fp_mul, fp_sqrt, fp_sub, gamma_encode, tone_map_gamma};
use rayst::trig::{cos_deg, sin_deg};

#[test]
fn fixed_point_basics() {
    assert_eq!(fp_add(1024, 1024), 2048);
    assert_eq!(fp_sub(1024, 2048), -1024);
    assert_eq!(fp_mul(2048, 512), 1024);
    assert_eq!(fp_mul(-2048, 512), -1024);
    assert_eq!(fp_div(1024, 2048), 512);
    assert_eq!(fp_div(-1024, 2048), -512);
    assert_eq!(fp_sqrt(4096), 2048);
    assert_eq!(fp_sqrt(0), 0);
    assert_eq!(fp_add(i64::MAX, 1), i64::MAX);
}

#[test]
fn gamma_encoding_values() {
    assert_eq!(gamma_encode(0), 0);
    assert_eq!(gamma_encode(1024), 1024);
    assert_eq!(gamma_encode(512), 747);
    assert_eq!(gamma_encode(100), 355);
}

#[test]
fn tone_mapping_compresses() {
    assert_eq!(tone_map_gamma(0), 0);
    // 1.0 maps to 0.5 under Reinhard, then gamma lifts it to 747/1024.
    assert_eq!(tone_map_gamma(1024), 747);
    // Negative radiance is clamped to black first.
    assert_eq!(tone_map_gamma(-500), 0);
}

#[test]
fn sine_table_values() {
    assert_eq!(sin_deg(0), 0);
    assert_eq!(sin_deg(30), 512);
    assert_eq!(sin_deg(45), 724);
    assert_eq!(sin_deg(90), 1024);
    assert_eq!(sin_deg(180), 0);
    assert_eq!(sin_deg(270), -1024);
    assert_eq!(sin_deg(-90), -1024);
    assert_eq!(sin_deg(390), 512);
    assert_eq!(cos_deg(0), 1024);
    assert_eq!(cos_deg(60), 512);
    assert_eq!(cos_deg(90), 0);
    assert_eq!(cos_deg(180), -1024);
}

#[test]
fn vector_algebra() {
    let a = Vec3::new(1024, 2048, -1024);
    let b = Vec3::new(512, -512, 2048);
    assert_eq!(a.add(&b), Vec3::new(1536, 1536, 1024));
    assert_eq!(a.sub(&b), Vec3::new(512, 2560, -3072));
    assert_eq!(a.dot(&b), 512 - 1024 - 2048);
    assert_eq!(a.scale(512), Vec3::new(512, 1024, -512));
    assert_eq!(Vec3::new(0, 0, -3072).length(), 3072);
    assert_eq!(Vec3::new(0, 0, -3072).normalized(), Vec3::new(0, 0, -1024));
    assert_eq!(Vec3::zero().normalized(), Vec3::zero());
    let x = Vec3::new(1024, 0, 0);
    let y = Vec3::new(0, 1024, 0);
    assert_eq!(x.cross(&y), Vec3::new(0, 0, 1024));
    assert_eq!(y.cross(&x), Vec3::new(0, 0, -1024));
}

#[test]
fn material_construction_clamps() {
    let m = Material::new(Vec3::new(1024, 0, 0), 5000, -100);
    assert_eq!(m.metallic, 1024);
    assert_eq!(m.roughness, 0);
    assert_eq!(m.ao, 1024);
    assert_eq!(m.emission, Vec3::zero());
    assert_eq!(m.transparency, 0);
    assert_eq!(m.ior, 1024);
}

#[test]
fn material_presets() {
    let g = Material::gold();
    assert_eq!(g.albedo, Vec3::new(1024, 860, 0));
    assert_eq!(g.metallic, 1024);
    assert_eq!(g.roughness, 102);
    assert_eq!(Material::silver().albedo, Vec3::new(973, 973, 973));
    assert_eq!(Material::copper().roughness, 205);
    let p = Material::plastic(Vec3::new(0, 1024, 0));
    assert_eq!(p.metallic, 0);
    assert_eq!(p.roughness, 819);
    let gl = Material::glass(Vec3::new(1024, 1024, 1024), 512);
    assert_eq!(gl.ior, 1536);
    assert_eq!(gl.transparency, 512);
}

#[test]
fn f0_picks_albedo_for_metals() {
    let metal = Material::metal(Vec3::new(1024, 860, 0), 102);
    assert_eq!(metal.get_f0(), Vec3::new(1024, 860, 0));
    let plastic = Material::plastic(Vec3::new(1024, 0, 0));
    assert_eq!(plastic.get_f0(), Vec3::new(41, 41, 41));
}

#[test]
fn albedo_to_rgb() {
    let m = Material::new(Vec3::new(1024, 512, 0), 0, 512);
    assert_eq!(m.to_rgb_u8(), (255, 127, 0));
}

#[test]
fn ggx_is_nonnegative_and_exact() {
    assert_eq!(Material::distribution_ggx(512, 512), 34);
    assert!(Material::distribution_ggx(0, 0) >= 0);
    assert!(Material::distribution_ggx(1024, 0) >= 0);
    assert!(Material::distribution_ggx(1024, 1024) >= 0);
    assert!(Material::distribution_ggx(0, 1024) >= 0);
}

#[test]
fn schlick_ggx_exact_at_head_on() {
    assert_eq!(Material::geometry_schlick_ggx(1024, 0), 1024);
    assert!(Material::geometry_schlick_ggx(0, 0) >= 0);
}

#[test]
fn smith_is_nonnegative() {
    for (ndv, ndl, rough) in [(0i64, 0i64, 0i64), (1024, 1024, 0), (512, 256, 1024), (0, 1024, 512)]
    {
        assert!(Material::geometry_smith(ndv, ndl, rough) >= 0);
    }
}

#[test]
fn fresnel_head_on_returns_f0() {
    let f0 = Vec3::new(41, 41, 41);
    assert_eq!(Material::fresnel_schlick(1024, f0), f0);
    let gold_f0 = Vec3::new(1024, 860, 0);
    assert_eq!(Material::fresnel_schlick(1024, gold_f0), gold_f0);
}

#[test]
fn fresnel_grazing_is_componentwise_nonnegative() {
    let f = Material::fresnel_schlick(0, Vec3::new(41, 41, 41));
    assert!(f.x >= 0 && f.y >= 0 && f.z >= 0);
    assert!(f.x > 41);
}
