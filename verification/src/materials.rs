//! Physically-based surface description and the microfacet BRDF terms.

use vstd::prelude::*;
use crate::fp::{SCALE, fadd, fsub, fmul, fdiv, fclamp, fmax, tdiv, fp_add, fp_sub, fp_mul, fp_div,
    fp_clamp, fp_max, tdiv128, lemma_fmul_nonneg, lemma_fmul_sq_nonneg, lemma_fmul_le,
    lemma_fdiv_nonneg, lemma_fdiv_le_num};
use crate::math::vec3::{Vec3, v_add, v_sub, v_scale};

verus! {

/// Fixed-point pi.
pub const PI_FP: i64 = 3217;

/// Reflectance at normal incidence of a dielectric surface (about 0.04).
pub const F0_DIELECTRIC: i64 = 41;

/// A surface description.  Color channels and the scalar parameters live
/// in `[0, SCALE]`, i.e. `[0, 1]` in world terms; `ior` is a plain
/// fixed-point scalar (1.0 for vacuum).
#[derive(Clone, Copy, Debug, PartialEq, Eq, Structural)]
pub struct Material {
    pub albedo: Vec3,
    pub metallic: i64,
    pub roughness: i64,
    pub ao: i64,
    pub emission: Vec3,
    pub transparency: i64,
    pub ior: i64,
}

/// The Trowbridge-Reitz normal distribution
/// `a^2 / (pi * (d^2 (a^2 - 1) + 1)^2)` with `a = roughness^2`, in fixed
/// point.  The denominator is kept at least one step, so the grazing
/// singularity divides by one step instead of by zero.
pub open spec fn ggx_spec(n_dot_h: int, roughness: int) -> int {
    let a = fmul(roughness, roughness);
    let a2 = fmul(a, a);
    let d2 = fmul(n_dot_h, n_dot_h);
    let base = fadd(fmul(d2, fsub(a2, SCALE as int)), SCALE as int);
    let denom = fmax(fmul(PI_FP as int, fmul(base, base)), 1);
    fdiv(a2, denom)
}

/// The Schlick-GGX masking term `d / (d (1 - k) + k)` with
/// `k = (roughness + 1)^2 / 8`.
pub open spec fn schlick_ggx_spec(n_dot_x: int, roughness: int) -> int {
    let r = fadd(roughness, SCALE as int);
    let k = fdiv(fmul(r, r), 8 * SCALE as int);
    let denom = fadd(fmul(n_dot_x, fsub(SCALE as int, k)), k);
    fdiv(n_dot_x, denom)
}

/// The Smith shadowing term: the product of the masking terms for the
/// view and the light directions.
pub open spec fn smith_spec(n_dot_v: int, n_dot_l: int, roughness: int) -> int {
    fmul(schlick_ggx_spec(n_dot_l, roughness), schlick_ggx_spec(n_dot_v, roughness))
}

/// The Schlick Fresnel approximation `f0 + (1 - f0)(1 - cos)^5`.
pub open spec fn fresnel_spec(cos_theta: int, f0: Vec3) -> Vec3 {
    let m = fsub(SCALE as int, cos_theta);
    let m2 = fmul(m, m);
    let m4 = fmul(m2, m2);
    let m5 = fmul(m4, m);
    v_add(f0, v_scale(v_sub(Vec3 { x: SCALE, y: SCALE, z: SCALE }, f0), m5))
}

/// A color channel in `[0, 1]` mapped to an 8-bit value, clamped.
pub open spec fn channel_to_u8(c: int) -> int {
    fclamp(tdiv(c * 255, SCALE as int), 0, 255)
}

impl Material {
    /// A surface with the given albedo; `metallic` and `roughness` are
    /// clamped into `[0, 1]`, occlusion is full, there is no emission and
    /// no transparency.
    pub fn new(albedo: Vec3, metallic: i64, roughness: i64) -> (m: Material)
        ensures
            m.albedo == albedo,
            m.metallic as int == fclamp(metallic as int, 0, SCALE as int),
            m.roughness as int == fclamp(roughness as int, 0, SCALE as int),
            m.ao == SCALE,
            m.emission == (Vec3 { x: 0i64, y: 0i64, z: 0i64 }),
            m.transparency == 0i64,
            m.ior == SCALE,
    {
        Material {
            albedo,
            metallic: fp_clamp(metallic, 0, SCALE),
            roughness: fp_clamp(roughness, 0, SCALE),
            ao: SCALE,
            emission: Vec3 { x: 0, y: 0, z: 0 },
            transparency: 0,
            ior: SCALE,
        }
    }

    /// A dull dielectric surface.
    pub fn plastic(color: Vec3) -> (m: Material)
        ensures
            m.albedo == color,
            m.metallic == 0i64,
            m.roughness == 819i64,
    {
        Material::new(color, 0, 819)
    }

    /// A fully metallic surface with the given roughness.
    pub fn metal(color: Vec3, roughness: i64) -> (m: Material)
        ensures
            m.albedo == color,
            m.metallic == SCALE,
            m.roughness as int == fclamp(roughness as int, 0, SCALE as int),
    {
        Material::new(color, SCALE, roughness)
    }

    pub fn gold() -> (m: Material)
        ensures
            m.albedo == (Vec3 { x: 1024i64, y: 860i64, z: 0i64 }),
            m.metallic == SCALE,
            m.roughness == 102i64,
    {
        Material::new(Vec3 { x: 1024, y: 860, z: 0 }, SCALE, 102)
    }

    pub fn silver() -> (m: Material)
        ensures
            m.albedo == (Vec3 { x: 973i64, y: 973i64, z: 973i64 }),
            m.metallic == SCALE,
            m.roughness == 51i64,
    {
        Material::new(Vec3 { x: 973, y: 973, z: 973 }, SCALE, 51)
    }

    pub fn copper() -> (m: Material)
        ensures
            m.albedo == (Vec3 { x: 973i64, y: 655i64, z: 553i64 }),
            m.metallic == SCALE,
            m.roughness == 205i64,
    {
        Material::new(Vec3 { x: 973, y: 655, z: 553 }, SCALE, 205)
    }

    /// A smooth transparent dielectric.
    pub fn glass(color: Vec3, transparency: i64) -> (m: Material)
        ensures
            m.albedo == color,
            m.metallic == 0i64,
            m.roughness == 0i64,
            m.ao == SCALE,
            m.emission == (Vec3 { x: 0i64, y: 0i64, z: 0i64 }),
            m.transparency as int == fclamp(transparency as int, 0, SCALE as int),
            m.ior == 1536i64,
    {
        Material {
            albedo: color,
            metallic: 0,
            roughness: 0,
            ao: SCALE,
            emission: Vec3 { x: 0, y: 0, z: 0 },
            transparency: fp_clamp(transparency, 0, SCALE),
            ior: 1536,
        }
    }

    /// Reflectance at normal incidence: the albedo for metals, a fixed
    /// dielectric constant otherwise.
    pub fn get_f0(&self) -> (r: Vec3)
        ensures
            r == if self.metallic > 512 {
                self.albedo
            } else {
                Vec3 { x: F0_DIELECTRIC, y: F0_DIELECTRIC, z: F0_DIELECTRIC }
            },
    {
        if self.metallic > 512 {
            self.albedo
        } else {
            Vec3 { x: F0_DIELECTRIC, y: F0_DIELECTRIC, z: F0_DIELECTRIC }
        }
    }

    /// The albedo as an 8-bit RGB triple, clamped per channel.
    pub fn to_rgb_u8(&self) -> (r: (u8, u8, u8))
        ensures
            r.0 as int == channel_to_u8(self.albedo.x as int),
            r.1 as int == channel_to_u8(self.albedo.y as int),
            r.2 as int == channel_to_u8(self.albedo.z as int),
    {
        (channel_u8(self.albedo.x), channel_u8(self.albedo.y), channel_u8(self.albedo.z))
    }

    /// Microfacet normal distribution; non-negative for every input.
    pub fn distribution_ggx(n_dot_h: i64, roughness: i64) -> (r: i64)
        ensures
            r as int == ggx_spec(n_dot_h as int, roughness as int),
            r >= 0,
    {
        let a = fp_mul(roughness, roughness);
        let a2 = fp_mul(a, a);
        let d2 = fp_mul(n_dot_h, n_dot_h);
        let base = fp_add(fp_mul(d2, fp_sub(a2, SCALE)), SCALE);
        let denom = fp_max(fp_mul(PI_FP, fp_mul(base, base)), 1);
        proof {
            lemma_fmul_sq_nonneg(a as int);
            lemma_fdiv_nonneg(a2 as int, denom as int);
        }
        fp_div(a2, denom)
    }

    /// Schlick-GGX masking for one direction; non-negative on the valid
    /// domain (a clamped cosine and a clamped roughness).
    pub fn geometry_schlick_ggx(n_dot_x: i64, roughness: i64) -> (r: i64)
        requires
            0 <= n_dot_x <= SCALE,
            0 <= roughness <= SCALE,
        ensures
            r as int == schlick_ggx_spec(n_dot_x as int, roughness as int),
            r >= 0,
    {
        let rr = fp_add(roughness, SCALE);
        let kn = fp_mul(rr, rr);
        proof {
            lemma_fmul_le(1024, 1024, rr as int, rr as int);
            lemma_fmul_le(rr as int, rr as int, 2048, 2048);
            assert(fmul(1024, 1024) == 1024);
            assert(fmul(2048, 2048) == 4096);
        }
        let k = fp_div(kn, 8 * SCALE);
        proof {
            lemma_fdiv_le_num(1024, kn as int, 8 * SCALE as int);
            lemma_fdiv_le_num(kn as int, 4096, 8 * SCALE as int);
            assert(fdiv(1024, 8192) == 128);
            assert(fdiv(4096, 8192) == 512);
            lemma_fmul_nonneg(n_dot_x as int, fsub(SCALE as int, k as int));
        }
        let denom = fp_add(fp_mul(n_dot_x, fp_sub(SCALE, k)), k);
        proof {
            lemma_fdiv_nonneg(n_dot_x as int, denom as int);
        }
        fp_div(n_dot_x, denom)
    }

    /// Smith geometric shadowing; non-negative on the valid domain.
    pub fn geometry_smith(n_dot_v: i64, n_dot_l: i64, roughness: i64) -> (r: i64)
        requires
            0 <= n_dot_v <= SCALE,
            0 <= n_dot_l <= SCALE,
            0 <= roughness <= SCALE,
        ensures
            r as int == smith_spec(n_dot_v as int, n_dot_l as int, roughness as int),
            r >= 0,
    {
        let ggx2 = Material::geometry_schlick_ggx(n_dot_v, roughness);
        let ggx1 = Material::geometry_schlick_ggx(n_dot_l, roughness);
        proof {
            lemma_fmul_nonneg(ggx1 as int, ggx2 as int);
        }
        fp_mul(ggx1, ggx2)
    }

    /// Schlick's Fresnel approximation.  At a head-on angle
    /// (`cos_theta == SCALE`) it returns `f0` itself.
    pub fn fresnel_schlick(cos_theta: i64, f0: Vec3) -> (r: Vec3)
        ensures
            r == fresnel_spec(cos_theta as int, f0),
            cos_theta == SCALE ==> r == f0,
    {
        let m = fp_sub(SCALE, cos_theta);
        let m2 = fp_mul(m, m);
        let m4 = fp_mul(m2, m2);
        let m5 = fp_mul(m4, m);
        let one = Vec3 { x: SCALE, y: SCALE, z: SCALE };
        let r = f0.add(&one.sub(&f0).scale(m5));
        proof {
            if cos_theta == SCALE {
                crate::fp::lemma_fmul_zero();
                assert(m == 0i64);
                assert(m5 == 0i64);
                assert(r.x == f0.x && r.y == f0.y && r.z == f0.z);
            }
        }
        r
    }
}

/// One color channel mapped to 8 bits.
pub(crate) fn channel_u8(c: i64) -> (r: u8)
    ensures
        r as int == channel_to_u8(c as int),
{
    proof {
        assert(-0x2000_0000_0000_0000_0000 < (c as int) * 255 < 0x2000_0000_0000_0000_0000)
            by (nonlinear_arith)
            requires
                -0x8000_0000_0000_0000 <= c as int <= 0x7fff_ffff_ffff_ffff,
        ;
    }
    let wide: i128 = (c as i128) * 255;
    let t: i128 = tdiv128(wide, SCALE as i128);
    if t < 0 {
        0
    } else if t > 255 {
        255
    } else {
        t as u8
    }
}

} // verus!
