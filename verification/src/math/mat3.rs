//! 3x3 fixed-point matrices, used for the Euler rotations of boxes and
//! pyramids.

use vstd::prelude::*;
use crate::fp::{fadd, fmul, fneg, fp_add, fp_mul, fp_neg};
use crate::math::vec3::Vec3;
use crate::trig::{sin_deg_spec, cos_deg_spec, sin_deg, cos_deg};

verus! {

/// A row-major 3x3 matrix of fixed-point scalars.
#[derive(Clone, Copy, Debug, PartialEq, Eq, Structural)]
pub struct Mat3 {
    pub m00: i64,
    pub m01: i64,
    pub m02: i64,
    pub m10: i64,
    pub m11: i64,
    pub m12: i64,
    pub m20: i64,
    pub m21: i64,
    pub m22: i64,
}

/// Matrix times column vector.
pub open spec fn mat_vec_spec(m: Mat3, v: Vec3) -> Vec3 {
    Vec3 {
        x: fadd(fadd(fmul(m.m00 as int, v.x as int), fmul(m.m01 as int, v.y as int)),
            fmul(m.m02 as int, v.z as int)) as i64,
        y: fadd(fadd(fmul(m.m10 as int, v.x as int), fmul(m.m11 as int, v.y as int)),
            fmul(m.m12 as int, v.z as int)) as i64,
        z: fadd(fadd(fmul(m.m20 as int, v.x as int), fmul(m.m21 as int, v.y as int)),
            fmul(m.m22 as int, v.z as int)) as i64,
    }
}

/// One entry of a matrix product: the dot of a row of `a` with a column
/// of `b`.
pub open spec fn mat_mul_entry(a0: int, a1: int, a2: int, b0: int, b1: int, b2: int) -> int {
    fadd(fadd(fmul(a0, b0), fmul(a1, b1)), fmul(a2, b2))
}

/// Matrix product.
pub open spec fn mat_mul_spec(a: Mat3, b: Mat3) -> Mat3 {
    Mat3 {
        m00: mat_mul_entry(a.m00 as int, a.m01 as int, a.m02 as int, b.m00 as int, b.m10 as int,
            b.m20 as int) as i64,
        m01: mat_mul_entry(a.m00 as int, a.m01 as int, a.m02 as int, b.m01 as int, b.m11 as int,
            b.m21 as int) as i64,
        m02: mat_mul_entry(a.m00 as int, a.m01 as int, a.m02 as int, b.m02 as int, b.m12 as int,
            b.m22 as int) as i64,
        m10: mat_mul_entry(a.m10 as int, a.m11 as int, a.m12 as int, b.m00 as int, b.m10 as int,
            b.m20 as int) as i64,
        m11: mat_mul_entry(a.m10 as int, a.m11 as int, a.m12 as int, b.m01 as int, b.m11 as int,
            b.m21 as int) as i64,
        m12: mat_mul_entry(a.m10 as int, a.m11 as int, a.m12 as int, b.m02 as int, b.m12 as int,
            b.m22 as int) as i64,
        m20: mat_mul_entry(a.m20 as int, a.m21 as int, a.m22 as int, b.m00 as int, b.m10 as int,
            b.m20 as int) as i64,
        m21: mat_mul_entry(a.m20 as int, a.m21 as int, a.m22 as int, b.m01 as int, b.m11 as int,
            b.m21 as int) as i64,
        m22: mat_mul_entry(a.m20 as int, a.m21 as int, a.m22 as int, b.m02 as int, b.m12 as int,
            b.m22 as int) as i64,
    }
}

pub open spec fn mat_transpose_spec(m: Mat3) -> Mat3 {
    Mat3 {
        m00: m.m00,
        m01: m.m10,
        m02: m.m20,
        m10: m.m01,
        m11: m.m11,
        m12: m.m21,
        m20: m.m02,
        m21: m.m12,
        m22: m.m22,
    }
}

/// Rotation about the X axis by a whole-degree angle.
pub open spec fn rot_x_spec(deg: int) -> Mat3 {
    let c = cos_deg_spec(deg);
    let s = sin_deg_spec(deg);
    Mat3 {
        m00: 1024,
        m01: 0,
        m02: 0,
        m10: 0,
        m11: c as i64,
        m12: fneg(s) as i64,
        m20: 0,
        m21: s as i64,
        m22: c as i64,
    }
}

/// Rotation about the Y axis by a whole-degree angle.
pub open spec fn rot_y_spec(deg: int) -> Mat3 {
    let c = cos_deg_spec(deg);
    let s = sin_deg_spec(deg);
    Mat3 {
        m00: c as i64,
        m01: 0,
        m02: s as i64,
        m10: 0,
        m11: 1024,
        m12: 0,
        m20: fneg(s) as i64,
        m21: 0,
        m22: c as i64,
    }
}

/// Rotation about the Z axis by a whole-degree angle.
pub open spec fn rot_z_spec(deg: int) -> Mat3 {
    let c = cos_deg_spec(deg);
    let s = sin_deg_spec(deg);
    Mat3 {
        m00: c as i64,
        m01: fneg(s) as i64,
        m02: 0,
        m10: s as i64,
        m11: c as i64,
        m12: 0,
        m20: 0,
        m21: 0,
        m22: 1024,
    }
}

/// The Euler rotation used by boxes and pyramids: Z then Y then X,
/// combined as `Rz * Ry * Rx`, angles in whole degrees.
pub open spec fn rot_zyx_spec(rx: int, ry: int, rz: int) -> Mat3 {
    mat_mul_spec(rot_z_spec(rz), mat_mul_spec(rot_y_spec(ry), rot_x_spec(rx)))
}

/// An exact quarter-turn cosine/sine pair: the fixed-point values of
/// the angles 0, 90, 180 and 270 degrees, where no rounding occurs.
pub open spec fn quarter_cs(c: int, s: int) -> bool {
    ||| (c == 1024 && s == 0)
    ||| (c == 0 && s == 1024)
    ||| (c == -1024 && s == 0)
    ||| (c == 0 && s == -1024)
}

/// Components far enough from the representable edge that rotating them
/// cannot saturate.
pub open spec fn rotation_safe(p: Vec3) -> bool {
    &&& -0x4000_0000_0000_0000 <= p.x <= 0x4000_0000_0000_0000
    &&& -0x4000_0000_0000_0000 <= p.y <= 0x4000_0000_0000_0000
    &&& -0x4000_0000_0000_0000 <= p.z <= 0x4000_0000_0000_0000
}

/// The rotation and its computed inverse (the transpose) cancel exactly
/// on every point, for a quarter-turn rotation about the X axis.
#[verifier::rlimit(100)]
pub proof fn lemma_quarter_turn_x_round_trip(a: int, p: Vec3)
    requires
        quarter_cs(cos_deg_spec(a), sin_deg_spec(a)),
        rotation_safe(p),
    ensures
        ({
            let m = rot_zyx_spec(a, 0, 0);
            mat_vec_spec(m, mat_vec_spec(mat_transpose_spec(m), p)) == p
        }),
{
    crate::fp::lemma_fmul_unit_all();
    crate::fp::lemma_fmul_zero();
    assert(cos_deg_spec(0) == 1024);
    assert(sin_deg_spec(0) == 0);
}

/// The rotation and its computed inverse cancel exactly on every point,
/// for a quarter-turn rotation about the Y axis.
#[verifier::rlimit(100)]
pub proof fn lemma_quarter_turn_y_round_trip(a: int, p: Vec3)
    requires
        quarter_cs(cos_deg_spec(a), sin_deg_spec(a)),
        rotation_safe(p),
    ensures
        ({
            let m = rot_zyx_spec(0, a, 0);
            mat_vec_spec(m, mat_vec_spec(mat_transpose_spec(m), p)) == p
        }),
{
    crate::fp::lemma_fmul_unit_all();
    crate::fp::lemma_fmul_zero();
    assert(cos_deg_spec(0) == 1024);
    assert(sin_deg_spec(0) == 0);
}

/// The rotation and its computed inverse cancel exactly on every point,
/// for a quarter-turn rotation about the Z axis.
#[verifier::rlimit(100)]
pub proof fn lemma_quarter_turn_z_round_trip(a: int, p: Vec3)
    requires
        quarter_cs(cos_deg_spec(a), sin_deg_spec(a)),
        rotation_safe(p),
    ensures
        ({
            let m = rot_zyx_spec(0, 0, a);
            mat_vec_spec(m, mat_vec_spec(mat_transpose_spec(m), p)) == p
        }),
{
    crate::fp::lemma_fmul_unit_all();
    crate::fp::lemma_fmul_zero();
    assert(cos_deg_spec(0) == 1024);
    assert(sin_deg_spec(0) == 0);
}

impl Mat3 {
    pub fn mul_vec(&self, v: &Vec3) -> (r: Vec3)
        ensures
            r == mat_vec_spec(*self, *v),
    {
        Vec3 {
            x: fp_add(fp_add(fp_mul(self.m00, v.x), fp_mul(self.m01, v.y)), fp_mul(self.m02, v.z)),
            y: fp_add(fp_add(fp_mul(self.m10, v.x), fp_mul(self.m11, v.y)), fp_mul(self.m12, v.z)),
            z: fp_add(fp_add(fp_mul(self.m20, v.x), fp_mul(self.m21, v.y)), fp_mul(self.m22, v.z)),
        }
    }

    pub fn mul_mat(&self, o: &Mat3) -> (r: Mat3)
        ensures
            r == mat_mul_spec(*self, *o),
    {
        Mat3 {
            m00: fp_add(fp_add(fp_mul(self.m00, o.m00), fp_mul(self.m01, o.m10)),
                fp_mul(self.m02, o.m20)),
            m01: fp_add(fp_add(fp_mul(self.m00, o.m01), fp_mul(self.m01, o.m11)),
                fp_mul(self.m02, o.m21)),
            m02: fp_add(fp_add(fp_mul(self.m00, o.m02), fp_mul(self.m01, o.m12)),
                fp_mul(self.m02, o.m22)),
            m10: fp_add(fp_add(fp_mul(self.m10, o.m00), fp_mul(self.m11, o.m10)),
                fp_mul(self.m12, o.m20)),
            m11: fp_add(fp_add(fp_mul(self.m10, o.m01), fp_mul(self.m11, o.m11)),
                fp_mul(self.m12, o.m21)),
            m12: fp_add(fp_add(fp_mul(self.m10, o.m02), fp_mul(self.m11, o.m12)),
                fp_mul(self.m12, o.m22)),
            m20: fp_add(fp_add(fp_mul(self.m20, o.m00), fp_mul(self.m21, o.m10)),
                fp_mul(self.m22, o.m20)),
            m21: fp_add(fp_add(fp_mul(self.m20, o.m01), fp_mul(self.m21, o.m11)),
                fp_mul(self.m22, o.m21)),
            m22: fp_add(fp_add(fp_mul(self.m20, o.m02), fp_mul(self.m21, o.m12)),
                fp_mul(self.m22, o.m22)),
        }
    }

    pub fn transpose(&self) -> (r: Mat3)
        ensures
            r == mat_transpose_spec(*self),
    {
        Mat3 {
            m00: self.m00,
            m01: self.m10,
            m02: self.m20,
            m10: self.m01,
            m11: self.m11,
            m12: self.m21,
            m20: self.m02,
            m21: self.m12,
            m22: self.m22,
        }
    }

    pub fn rotation_x(deg: i64) -> (r: Mat3)
        ensures
            r == rot_x_spec(deg as int),
    {
        let c = cos_deg(deg);
        let s = sin_deg(deg);
        Mat3 { m00: 1024, m01: 0, m02: 0, m10: 0, m11: c, m12: fp_neg(s), m20: 0, m21: s, m22: c }
    }

    pub fn rotation_y(deg: i64) -> (r: Mat3)
        ensures
            r == rot_y_spec(deg as int),
    {
        let c = cos_deg(deg);
        let s = sin_deg(deg);
        Mat3 { m00: c, m01: 0, m02: s, m10: 0, m11: 1024, m12: 0, m20: fp_neg(s), m21: 0, m22: c }
    }

    pub fn rotation_z(deg: i64) -> (r: Mat3)
        ensures
            r == rot_z_spec(deg as int),
    {
        let c = cos_deg(deg);
        let s = sin_deg(deg);
        Mat3 { m00: c, m01: fp_neg(s), m02: 0, m10: s, m11: c, m12: 0, m20: 0, m21: 0, m22: 1024 }
    }

    /// The Euler rotation `Rz * Ry * Rx`, angles in whole degrees.
    pub fn rotation_zyx(rx: i64, ry: i64, rz: i64) -> (r: Mat3)
        ensures
            r == rot_zyx_spec(rx as int, ry as int, rz as int),
    {
        let mx = Mat3::rotation_x(rx);
        let my = Mat3::rotation_y(ry);
        let mz = Mat3::rotation_z(rz);
        mz.mul_mat(&my.mul_mat(&mx))
    }
}

} // verus!
