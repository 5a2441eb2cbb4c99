//! Fixed-point 3-component vectors and 3x3 matrices.
//!
//! Matrices are stored row-major.  Every operation is specified exactly
//! over the saturating fixed-point scalar arithmetic of [`crate::fixed`];
//! a singular matrix inverts to the zero matrix.

use vstd::prelude::*;
use crate::fixed::FX_ONE;
use crate::fixed::sp_add;
use crate::fixed::sp_sub;
use crate::fixed::sp_mul;
use crate::fixed::sp_div;
use crate::fixed::fx_add;
use crate::fixed::fx_sub;
use crate::fixed::fx_mul;
use crate::fixed::fx_div;

verus! {

/// A 3-component fixed-point vector.
#[derive(Debug, Copy, Clone, PartialEq, Eq, Hash, Structural)]
pub struct Vec3 {
    pub x: i64,
    pub y: i64,
    pub z: i64,
}

impl Vec3 {
    /// A vector from its three components.
    pub fn new(x: i64, y: i64, z: i64) -> (r: Vec3)
        ensures
            r == (Vec3 { x, y, z }),
    {
        Vec3 { x, y, z }
    }
}

/// A 3x3 fixed-point matrix, row-major.
#[derive(Debug, Copy, Clone, PartialEq, Eq, Hash, Structural)]
pub struct Mat3 {
    pub m00: i64,
    pub m01: i64,
    pub m02: i64,
    pub m10: i64,
    pub m11: i64,
    pub m12: i64,
    pub m20: i64,
    pub m21: i64,
    pub m22: i64,
}

/// The identity matrix.
pub open spec fn sp_mat_identity() -> Mat3 {
    Mat3 {
        m00: FX_ONE,
        m01: 0i64,
        m02: 0i64,
        m10: 0i64,
        m11: FX_ONE,
        m12: 0i64,
        m20: 0i64,
        m21: 0i64,
        m22: FX_ONE,
    }
}

/// The zero matrix.
pub open spec fn sp_mat_zero() -> Mat3 {
    Mat3 {
        m00: 0i64,
        m01: 0i64,
        m02: 0i64,
        m10: 0i64,
        m11: 0i64,
        m12: 0i64,
        m20: 0i64,
        m21: 0i64,
        m22: 0i64,
    }
}

/// A fixed-point dot product of one matrix row with a vector.
pub open spec fn sp_dot3(a: int, b: int, c: int, x: int, y: int, z: int) -> int {
    sp_add(sp_add(sp_mul(a, x), sp_mul(b, y)), sp_mul(c, z))
}

/// A matrix applied to a vector.
pub open spec fn sp_mat_mul_vec(m: Mat3, v: Vec3) -> Vec3 {
    Vec3 {
        x: sp_dot3(m.m00 as int, m.m01 as int, m.m02 as int, v.x as int, v.y as int, v.z as int)
            as i64,
        y: sp_dot3(m.m10 as int, m.m11 as int, m.m12 as int, v.x as int, v.y as int, v.z as int)
            as i64,
        z: sp_dot3(m.m20 as int, m.m21 as int, m.m22 as int, v.x as int, v.y as int, v.z as int)
            as i64,
    }
}

/// The product of two matrices.
pub open spec fn sp_mat_mul_mat(a: Mat3, b: Mat3) -> Mat3 {
    Mat3 {
        m00: sp_dot3(a.m00 as int, a.m01 as int, a.m02 as int, b.m00 as int, b.m10 as int,
            b.m20 as int) as i64,
        m01: sp_dot3(a.m00 as int, a.m01 as int, a.m02 as int, b.m01 as int, b.m11 as int,
            b.m21 as int) as i64,
        m02: sp_dot3(a.m00 as int, a.m01 as int, a.m02 as int, b.m02 as int, b.m12 as int,
            b.m22 as int) as i64,
        m10: sp_dot3(a.m10 as int, a.m11 as int, a.m12 as int, b.m00 as int, b.m10 as int,
            b.m20 as int) as i64,
        m11: sp_dot3(a.m10 as int, a.m11 as int, a.m12 as int, b.m01 as int, b.m11 as int,
            b.m21 as int) as i64,
        m12: sp_dot3(a.m10 as int, a.m11 as int, a.m12 as int, b.m02 as int, b.m12 as int,
            b.m22 as int) as i64,
        m20: sp_dot3(a.m20 as int, a.m21 as int, a.m22 as int, b.m00 as int, b.m10 as int,
            b.m20 as int) as i64,
        m21: sp_dot3(a.m20 as int, a.m21 as int, a.m22 as int, b.m01 as int, b.m11 as int,
            b.m21 as int) as i64,
        m22: sp_dot3(a.m20 as int, a.m21 as int, a.m22 as int, b.m02 as int, b.m12 as int,
            b.m22 as int) as i64,
    }
}

/// A 2x2 cofactor `a*b - c*d`.
pub open spec fn sp_cof(a: int, b: int, c: int, d: int) -> int {
    sp_sub(sp_mul(a, b), sp_mul(c, d))
}

/// The determinant.
pub open spec fn sp_mat_det(m: Mat3) -> int {
    sp_add(
        sp_sub(
            sp_mul(m.m00 as int, sp_cof(m.m11 as int, m.m22 as int, m.m12 as int, m.m21 as int)),
            sp_mul(m.m01 as int, sp_cof(m.m10 as int, m.m22 as int, m.m12 as int, m.m20 as int)),
        ),
        sp_mul(m.m02 as int, sp_cof(m.m10 as int, m.m21 as int, m.m11 as int, m.m20 as int)),
    )
}

/// The inverse by the adjugate; the zero matrix when singular.
pub open spec fn sp_mat_inverse(m: Mat3) -> Mat3 {
    let det = sp_mat_det(m);
    if det == 0 {
        sp_mat_zero()
    } else {
        Mat3 {
            m00: sp_div(sp_cof(m.m11 as int, m.m22 as int, m.m12 as int, m.m21 as int), det)
                as i64,
            m01: sp_div(sp_cof(m.m02 as int, m.m21 as int, m.m01 as int, m.m22 as int), det)
                as i64,
            m02: sp_div(sp_cof(m.m01 as int, m.m12 as int, m.m02 as int, m.m11 as int), det)
                as i64,
            m10: sp_div(sp_cof(m.m12 as int, m.m20 as int, m.m10 as int, m.m22 as int), det)
                as i64,
            m11: sp_div(sp_cof(m.m00 as int, m.m22 as int, m.m02 as int, m.m20 as int), det)
                as i64,
            m12: sp_div(sp_cof(m.m02 as int, m.m10 as int, m.m00 as int, m.m12 as int), det)
                as i64,
            m20: sp_div(sp_cof(m.m10 as int, m.m21 as int, m.m11 as int, m.m20 as int), det)
                as i64,
            m21: sp_div(sp_cof(m.m01 as int, m.m20 as int, m.m00 as int, m.m21 as int), det)
                as i64,
            m22: sp_div(sp_cof(m.m00 as int, m.m11 as int, m.m01 as int, m.m10 as int), det)
                as i64,
        }
    }
}

/// The transpose.
pub open spec fn sp_mat_transpose(m: Mat3) -> Mat3 {
    Mat3 {
        m00: m.m00,
        m01: m.m10,
        m02: m.m20,
        m10: m.m01,
        m11: m.m11,
        m12: m.m21,
        m20: m.m02,
        m21: m.m12,
        m22: m.m22,
    }
}

fn dot3(a: i64, b: i64, c: i64, x: i64, y: i64, z: i64) -> (r: i64)
    ensures
        r as int == sp_dot3(a as int, b as int, c as int, x as int, y as int, z as int),
{
    fx_add(fx_add(fx_mul(a, x), fx_mul(b, y)), fx_mul(c, z))
}

fn cof(a: i64, b: i64, c: i64, d: i64) -> (r: i64)
    ensures
        r as int == sp_cof(a as int, b as int, c as int, d as int),
{
    fx_sub(fx_mul(a, b), fx_mul(c, d))
}

impl Mat3 {
    /// The identity matrix.
    pub fn identity() -> (r: Mat3)
        ensures
            r == sp_mat_identity(),
    {
        Mat3 {
            m00: FX_ONE,
            m01: 0,
            m02: 0,
            m10: 0,
            m11: FX_ONE,
            m12: 0,
            m20: 0,
            m21: 0,
            m22: FX_ONE,
        }
    }

    /// The zero matrix.
    pub fn zero() -> (r: Mat3)
        ensures
            r == sp_mat_zero(),
    {
        Mat3 { m00: 0, m01: 0, m02: 0, m10: 0, m11: 0, m12: 0, m20: 0, m21: 0, m22: 0 }
    }

    /// This matrix applied to a vector.
    pub fn mul_vec(&self, v: Vec3) -> (r: Vec3)
        ensures
            r == sp_mat_mul_vec(*self, v),
    {
        Vec3 {
            x: dot3(self.m00, self.m01, self.m02, v.x, v.y, v.z),
            y: dot3(self.m10, self.m11, self.m12, v.x, v.y, v.z),
            z: dot3(self.m20, self.m21, self.m22, v.x, v.y, v.z),
        }
    }

    /// The product of this matrix with another, this one on the left.
    pub fn mul_mat(&self, b: &Mat3) -> (r: Mat3)
        ensures
            r == sp_mat_mul_mat(*self, *b),
    {
        Mat3 {
            m00: dot3(self.m00, self.m01, self.m02, b.m00, b.m10, b.m20),
            m01: dot3(self.m00, self.m01, self.m02, b.m01, b.m11, b.m21),
            m02: dot3(self.m00, self.m01, self.m02, b.m02, b.m12, b.m22),
            m10: dot3(self.m10, self.m11, self.m12, b.m00, b.m10, b.m20),
            m11: dot3(self.m10, self.m11, self.m12, b.m01, b.m11, b.m21),
            m12: dot3(self.m10, self.m11, self.m12, b.m02, b.m12, b.m22),
            m20: dot3(self.m20, self.m21, self.m22, b.m00, b.m10, b.m20),
            m21: dot3(self.m20, self.m21, self.m22, b.m01, b.m11, b.m21),
            m22: dot3(self.m20, self.m21, self.m22, b.m02, b.m12, b.m22),
        }
    }

    /// The determinant.
    pub fn determinant(&self) -> (r: i64)
        ensures
            r as int == sp_mat_det(*self),
    {
        fx_add(
            fx_sub(
                fx_mul(self.m00, cof(self.m11, self.m22, self.m12, self.m21)),
                fx_mul(self.m01, cof(self.m10, self.m22, self.m12, self.m20)),
            ),
            fx_mul(self.m02, cof(self.m10, self.m21, self.m11, self.m20)),
        )
    }

    /// The inverse by the adjugate; the zero matrix when singular.
    pub fn inverse(&self) -> (r: Mat3)
        ensures
            r == sp_mat_inverse(*self),
    {
        let det: i64 = self.determinant();
        if det == 0 {
            return Mat3::zero();
        }
        Mat3 {
            m00: fx_div(cof(self.m11, self.m22, self.m12, self.m21), det),
            m01: fx_div(cof(self.m02, self.m21, self.m01, self.m22), det),
            m02: fx_div(cof(self.m01, self.m12, self.m02, self.m11), det),
            m10: fx_div(cof(self.m12, self.m20, self.m10, self.m22), det),
            m11: fx_div(cof(self.m00, self.m22, self.m02, self.m20), det),
            m12: fx_div(cof(self.m02, self.m10, self.m00, self.m12), det),
            m20: fx_div(cof(self.m10, self.m21, self.m11, self.m20), det),
            m21: fx_div(cof(self.m01, self.m20, self.m00, self.m21), det),
            m22: fx_div(cof(self.m00, self.m11, self.m01, self.m10), det),
        }
    }

    /// The transpose.
    pub fn transpose(&self) -> (r: Mat3)
        ensures
            r == sp_mat_transpose(*self),
    {
        Mat3 {
            m00: self.m00,
            m01: self.m10,
            m02: self.m20,
            m10: self.m01,
            m11: self.m11,
            m12: self.m21,
            m20: self.m02,
            m21: self.m12,
            m22: self.m22,
        }
    }
}

} // verus!
