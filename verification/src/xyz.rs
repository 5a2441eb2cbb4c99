//! The RGB <-> XYZ matrix builder: derives the 3x3 matrix of a linear RGB
//! coordinate system from its three primary chromaticities and its white
//! point tristimulus.
//!
//! Degenerate primaries (a zero y chromaticity, or the all-zero `NONE`
//! table entries) give singular intermediate matrices; the fixed-point
//! arithmetic then yields zero entries rather than NaN, and the result is
//! meaningless.  Callers must not convert through degenerate spaces.

use vstd::prelude::*;
use crate::fixed::FX_ONE;
use crate::fixed::sp_sub;
use crate::fixed::sp_div;
use crate::fixed::sp_mul;
use crate::fixed::fx_sub;
use crate::fixed::fx_div;
use crate::fixed::fx_mul;
use crate::vecmat::Vec3;
use crate::vecmat::Mat3;
use crate::vecmat::sp_mat_mul_vec;
use crate::vecmat::sp_mat_inverse;

verus! {

/// The "primary matrix": column i is `(x/y, 1, (1 - x - y)/y)` for
/// primary i.
pub open spec fn sp_primary_matrix(p: ((i64, i64), (i64, i64), (i64, i64))) -> Mat3 {
    Mat3 {
        m00: sp_div(p.0.0 as int, p.0.1 as int) as i64,
        m01: sp_div(p.1.0 as int, p.1.1 as int) as i64,
        m02: sp_div(p.2.0 as int, p.2.1 as int) as i64,
        m10: FX_ONE,
        m11: FX_ONE,
        m12: FX_ONE,
        m20: sp_div(sp_sub(sp_sub(FX_ONE as int, p.0.0 as int), p.0.1 as int), p.0.1 as int)
            as i64,
        m21: sp_div(sp_sub(sp_sub(FX_ONE as int, p.1.0 as int), p.1.1 as int), p.1.1 as int)
            as i64,
        m22: sp_div(sp_sub(sp_sub(FX_ONE as int, p.2.0 as int), p.2.1 as int), p.2.1 as int)
            as i64,
    }
}

fn primary_matrix(p: ((i64, i64), (i64, i64), (i64, i64))) -> (r: Mat3)
    ensures
        r == sp_primary_matrix(p),
{
    Mat3 {
        m00: fx_div(p.0.0, p.0.1),
        m01: fx_div(p.1.0, p.1.1),
        m02: fx_div(p.2.0, p.2.1),
        m10: FX_ONE,
        m11: FX_ONE,
        m12: FX_ONE,
        m20: fx_div(fx_sub(fx_sub(FX_ONE, p.0.0), p.0.1), p.0.1),
        m21: fx_div(fx_sub(fx_sub(FX_ONE, p.1.0), p.1.1), p.1.1),
        m22: fx_div(fx_sub(fx_sub(FX_ONE, p.2.0), p.2.1), p.2.1),
    }
}

/// The RGB-to-XYZ matrix: the primary matrix P with each column scaled by
/// the solution S of `P S = white`.
pub open spec fn sp_rgb_to_xyz(
    primaries: ((i64, i64), (i64, i64), (i64, i64)),
    white_point: Vec3,
) -> Mat3 {
    let p = sp_primary_matrix(primaries);
    let s = sp_mat_mul_vec(sp_mat_inverse(p), white_point);
    Mat3 {
        m00: sp_mul(p.m00 as int, s.x as int) as i64,
        m01: sp_mul(p.m01 as int, s.y as int) as i64,
        m02: sp_mul(p.m02 as int, s.z as int) as i64,
        m10: sp_mul(p.m10 as int, s.x as int) as i64,
        m11: sp_mul(p.m11 as int, s.y as int) as i64,
        m12: sp_mul(p.m12 as int, s.z as int) as i64,
        m20: sp_mul(p.m20 as int, s.x as int) as i64,
        m21: sp_mul(p.m21 as int, s.y as int) as i64,
        m22: sp_mul(p.m22 as int, s.z as int) as i64,
    }
}

/// The matrix taking this RGB coordinate system to CIE XYZ.
pub fn rgb_to_xyz(primaries: ((i64, i64), (i64, i64), (i64, i64)), white_point: Vec3) -> (r: Mat3)
    ensures
        r == sp_rgb_to_xyz(primaries, white_point),
{
    let p: Mat3 = primary_matrix(primaries);
    let s: Vec3 = p.inverse().mul_vec(white_point);
    Mat3 {
        m00: fx_mul(p.m00, s.x),
        m01: fx_mul(p.m01, s.y),
        m02: fx_mul(p.m02, s.z),
        m10: fx_mul(p.m10, s.x),
        m11: fx_mul(p.m11, s.y),
        m12: fx_mul(p.m12, s.z),
        m20: fx_mul(p.m20, s.x),
        m21: fx_mul(p.m21, s.y),
        m22: fx_mul(p.m22, s.z),
    }
}

/// The XYZ-to-RGB matrix: the inverse of [`sp_rgb_to_xyz`].
pub open spec fn sp_xyz_to_rgb(
    primaries: ((i64, i64), (i64, i64), (i64, i64)),
    white_point: Vec3,
) -> Mat3 {
    sp_mat_inverse(sp_rgb_to_xyz(primaries, white_point))
}

/// The matrix taking CIE XYZ to this RGB coordinate system.
pub fn xyz_to_rgb(primaries: ((i64, i64), (i64, i64), (i64, i64)), white_point: Vec3) -> (r: Mat3)
    ensures
        r == sp_xyz_to_rgb(primaries, white_point),
{
    rgb_to_xyz(primaries, white_point).inverse()
}

} // verus!
