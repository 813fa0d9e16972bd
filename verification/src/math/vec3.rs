//! 3-D vectors with fixed-point components.
//!
//! A `Vec3` stands for a point, a direction, or an RGB color, one
//! fixed-point scalar per component.

use vstd::prelude::*;
use crate::fp::{fadd, fsub, fmul, fdiv, sat64, sqrt_floor, is_sqrt_floor, lemma_sqrt_floor_unique,
    fp_add, fp_sub, fp_mul, isqrt_u128};

verus! {

#[derive(Clone, Copy, Debug, PartialEq, Eq, Structural)]
pub struct Vec3 {
    pub x: i64,
    pub y: i64,
    pub z: i64,
}

pub open spec fn v_add(a: Vec3, b: Vec3) -> Vec3 {
    Vec3 {
        x: fadd(a.x as int, b.x as int) as i64,
        y: fadd(a.y as int, b.y as int) as i64,
        z: fadd(a.z as int, b.z as int) as i64,
    }
}

pub open spec fn v_sub(a: Vec3, b: Vec3) -> Vec3 {
    Vec3 {
        x: fsub(a.x as int, b.x as int) as i64,
        y: fsub(a.y as int, b.y as int) as i64,
        z: fsub(a.z as int, b.z as int) as i64,
    }
}

/// Componentwise product (used for color filtering).
pub open spec fn v_mul(a: Vec3, b: Vec3) -> Vec3 {
    Vec3 {
        x: fmul(a.x as int, b.x as int) as i64,
        y: fmul(a.y as int, b.y as int) as i64,
        z: fmul(a.z as int, b.z as int) as i64,
    }
}

pub open spec fn v_scale(a: Vec3, s: int) -> Vec3 {
    Vec3 {
        x: fmul(a.x as int, s) as i64,
        y: fmul(a.y as int, s) as i64,
        z: fmul(a.z as int, s) as i64,
    }
}

pub open spec fn v_dot(a: Vec3, b: Vec3) -> int {
    fadd(fadd(fmul(a.x as int, b.x as int), fmul(a.y as int, b.y as int)),
        fmul(a.z as int, b.z as int))
}

pub open spec fn v_cross(a: Vec3, b: Vec3) -> Vec3 {
    Vec3 {
        x: fsub(fmul(a.y as int, b.z as int), fmul(a.z as int, b.y as int)) as i64,
        y: fsub(fmul(a.z as int, b.x as int), fmul(a.x as int, b.z as int)) as i64,
        z: fsub(fmul(a.x as int, b.y as int), fmul(a.y as int, b.x as int)) as i64,
    }
}

/// Componentwise division by a scalar.
pub open spec fn v_sdiv(a: Vec3, s: int) -> Vec3 {
    Vec3 {
        x: fdiv(a.x as int, s) as i64,
        y: fdiv(a.y as int, s) as i64,
        z: fdiv(a.z as int, s) as i64,
    }
}

/// Euclidean length.  The squares are taken at full precision, so the
/// result is the fixed-point length rounded down.
pub open spec fn v_len(a: Vec3) -> int {
    sat64(sqrt_floor(
        (a.x as int) * (a.x as int) + (a.y as int) * (a.y as int) + (a.z as int) * (a.z as int),
    ))
}

/// Unit vector along `a`; the zero vector (which has no direction) maps
/// to the zero vector.
pub open spec fn v_norm(a: Vec3) -> Vec3 {
    let l = v_len(a);
    if l == 0 {
        Vec3 { x: 0, y: 0, z: 0 }
    } else {
        Vec3 {
            x: fdiv(a.x as int, l) as i64,
            y: fdiv(a.y as int, l) as i64,
            z: fdiv(a.z as int, l) as i64,
        }
    }
}

/// A vector's dot product with itself is non-negative.
pub proof fn lemma_dot_self_nonneg(v: Vec3)
    ensures
        v_dot(v, v) >= 0,
{
    crate::fp::lemma_fmul_sq_nonneg(v.x as int);
    crate::fp::lemma_fmul_sq_nonneg(v.y as int);
    crate::fp::lemma_fmul_sq_nonneg(v.z as int);
}

/// The square of a component, exact, as an unsigned wide integer.
fn sq_u128(x: i64) -> (r: u128)
    ensures
        r as int == (x as int) * (x as int),
        r <= 0x4000_0000_0000_0000_0000_0000_0000_0000u128,
{
    proof {
        assert((x as int) * (x as int) <= 0x8000_0000_0000_0000 * 0x8000_0000_0000_0000
            && (x as int) * (x as int) >= 0) by (nonlinear_arith)
            requires
                -0x8000_0000_0000_0000 <= x as int <= 0x7fff_ffff_ffff_ffff,
        ;
    }
    let xi: i128 = x as i128;
    (xi * xi) as u128
}

impl Vec3 {
    pub fn new(x: i64, y: i64, z: i64) -> (r: Vec3)
        ensures
            r == (Vec3 { x, y, z }),
    {
        Vec3 { x, y, z }
    }

    pub fn zero() -> (r: Vec3)
        ensures
            r == (Vec3 { x: 0i64, y: 0i64, z: 0i64 }),
    {
        Vec3 { x: 0, y: 0, z: 0 }
    }

    /// The vector with every component `s`.
    pub fn splat(s: i64) -> (r: Vec3)
        ensures
            r == (Vec3 { x: s, y: s, z: s }),
    {
        Vec3 { x: s, y: s, z: s }
    }

    pub fn add(&self, o: &Vec3) -> (r: Vec3)
        ensures
            r == v_add(*self, *o),
    {
        Vec3 { x: fp_add(self.x, o.x), y: fp_add(self.y, o.y), z: fp_add(self.z, o.z) }
    }

    pub fn sub(&self, o: &Vec3) -> (r: Vec3)
        ensures
            r == v_sub(*self, *o),
    {
        Vec3 { x: fp_sub(self.x, o.x), y: fp_sub(self.y, o.y), z: fp_sub(self.z, o.z) }
    }

    /// Componentwise product.
    pub fn mul(&self, o: &Vec3) -> (r: Vec3)
        ensures
            r == v_mul(*self, *o),
    {
        Vec3 { x: fp_mul(self.x, o.x), y: fp_mul(self.y, o.y), z: fp_mul(self.z, o.z) }
    }

    pub fn scale(&self, s: i64) -> (r: Vec3)
        ensures
            r == v_scale(*self, s as int),
    {
        Vec3 { x: fp_mul(self.x, s), y: fp_mul(self.y, s), z: fp_mul(self.z, s) }
    }

    pub fn dot(&self, o: &Vec3) -> (r: i64)
        ensures
            r as int == v_dot(*self, *o),
    {
        fp_add(fp_add(fp_mul(self.x, o.x), fp_mul(self.y, o.y)), fp_mul(self.z, o.z))
    }

    pub fn cross(&self, o: &Vec3) -> (r: Vec3)
        ensures
            r == v_cross(*self, *o),
    {
        Vec3 {
            x: fp_sub(fp_mul(self.y, o.z), fp_mul(self.z, o.y)),
            y: fp_sub(fp_mul(self.z, o.x), fp_mul(self.x, o.z)),
            z: fp_sub(fp_mul(self.x, o.y), fp_mul(self.y, o.x)),
        }
    }

    /// Componentwise division by a scalar.
    pub fn sdiv(&self, s: i64) -> (r: Vec3)
        requires
            s != 0,
        ensures
            r == v_sdiv(*self, s as int),
    {
        Vec3 {
            x: crate::fp::fp_div(self.x, s),
            y: crate::fp::fp_div(self.y, s),
            z: crate::fp::fp_div(self.z, s),
        }
    }

    pub fn length(&self) -> (r: i64)
        ensures
            r as int == v_len(*self),
            r >= 0,
    {
        let xx: u128 = sq_u128(self.x);
        let yy: u128 = sq_u128(self.y);
        let zz: u128 = sq_u128(self.z);
        let n: u128 = xx + yy + zz;
        let s: u128 = isqrt_u128(n);
        proof {
            lemma_sqrt_floor_unique(n as int, s as int);
        }
        if s > i64::MAX as u128 {
            i64::MAX
        } else {
            s as i64
        }
    }

    /// Unit vector along `self`; the zero vector stays zero.
    pub fn normalized(&self) -> (r: Vec3)
        ensures
            r == v_norm(*self),
    {
        let l = self.length();
        if l == 0 {
            Vec3 { x: 0, y: 0, z: 0 }
        } else {
            Vec3 {
                x: crate::fp::fp_div(self.x, l),
                y: crate::fp::fp_div(self.y, l),
                z: crate::fp::fp_div(self.z, l),
            }
        }
    }
}

} // verus!
