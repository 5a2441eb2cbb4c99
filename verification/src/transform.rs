//! The non-linear transform registry: the paired forward and inverse
//! functions named by [`TransformFn`], and [`ColorTransform`], a composed
//! pair of one inverse and one forward stage.
//!
//! Every function maps a fixed-point 3-component vector to another and is
//! specified exactly; white-point-relative encodings also read the
//! associated [`WhitePoint`].  Division by zero yields zero, so degenerate
//! inputs give well-defined (if meaningless) results instead of NaN.

use vstd::prelude::*;
use crate::fixed::FX_ONE;
use crate::fixed::sp_add;
use crate::fixed::sp_sub;
use crate::fixed::sp_neg;
use crate::fixed::sp_mul;
use crate::fixed::sp_div;
use crate::fixed::sp_rem;
use crate::fixed::sp_abs;
use crate::fixed::sp_min;
use crate::fixed::sp_max;
use crate::fixed::fx_add;
use crate::fixed::fx_sub;
use crate::fixed::fx_neg;
use crate::fixed::fx_mul;
use crate::fixed::fx_div;
use crate::fixed::fx_rem;
use crate::fixed::fx_abs;
use crate::fixed::fx_min;
use crate::fixed::fx_max;
use crate::elementary::sp_sqrt;
use crate::elementary::sp_cbrt;
use crate::elementary::sp_pow;
use crate::elementary::sp_ln;
use crate::elementary::sp_exp;
use crate::elementary::fx_sqrt;
use crate::elementary::fx_cbrt;
use crate::elementary::fx_pow;
use crate::elementary::fx_ln;
use crate::elementary::fx_exp;
use crate::trig::sp_sincos;
use crate::trig::sp_atan2;
use crate::trig::fx_sincos;
use crate::trig::fx_atan2;
use crate::trig::FX_PI;
use crate::trig::FX_TAU;
use crate::vecmat::Vec3;
use crate::vecmat::Mat3;
use crate::vecmat::sp_mat_mul_vec;
use crate::vecmat::sp_mat_inverse;
use crate::color::TransformFn;
use crate::color::WhitePoint;

verus! {

/// The sRGB OETF linear-segment cutoff, 0.0031308.
pub const SRGB_CUTOFF: i64 = 13446684;

/// The sRGB linear-segment slope, 12.92.
pub const SRGB_SLOPE: i64 = 55490977464;

/// The sRGB power-segment scale, 1.055.
pub const SRGB_A: i64 = 4531190497;

/// The sRGB power-segment offset, 0.055.
pub const SRGB_B: i64 = 236223201;

/// The sRGB OETF exponent, 1/2.4.
pub const SRGB_INV_GAMMA: i64 = 1789569707;

/// The sRGB EOTF exponent, 2.4.
pub const SRGB_GAMMA: i64 = 10307921510;

/// The sRGB EOTF linear-segment cutoff, 0.04045.
pub const SRGB_ENC_CUTOFF: i64 = 173731427;

/// The BT.601 OETF linear-segment cutoff, 0.0181.
pub const BT601_CUTOFF: i64 = 77738908;

/// The BT.601 linear-segment slope, 4.5.
pub const BT601_SLOPE: i64 = 19327352832;

/// The BT.601 power-segment scale, 1.0993.
pub const BT601_A: i64 = 4721457548;

/// The BT.601 power-segment offset, 0.0993.
pub const BT601_B: i64 = 426490252;

/// The BT.601 OETF exponent, 0.45.
pub const BT601_POW: i64 = 1932735283;

/// The BT.601 inverse-OETF exponent, 1/0.45.
pub const BT601_INV_POW: i64 = 9544371769;

/// The BT.601 inverse linear-segment cutoff, 0.08145.
pub const BT601_ENC_CUTOFF: i64 = 349825086;

/// The CIELAB curve break, 0.008856.
pub const LAB_EPS: i64 = 38036230;

/// The CIELAB linear-segment slope, 7.78703703704.
pub const LAB_SLOPE: i64 = 33445069407;

/// The CIELAB linear-segment offset, 0.13793103448.
pub const LAB_OFFSET: i64 = 592409282;

/// The inverse CIELAB linear-segment slope, 0.12841854934.
pub const LAB_INV_SLOPE: i64 = 551553470;

/// The CIE 1976 Luv luminance-segment slope, 7.787.
pub const LUV_SLOPE: i64 = 33444910334;

pub const HALF: i64 = 2147483648;
pub const TWO_THIRDS: i64 = 2863311531;
pub const THREE_HALVES: i64 = 6442450944;
pub const ONE_THIRD: i64 = 1431655765;
pub const C2: i64 = 8589934592;
pub const C3: i64 = 12884901888;
pub const C4: i64 = 17179869184;
pub const C5: i64 = 21474836480;
pub const C6: i64 = 25769803776;
pub const C8: i64 = 34359738368;
pub const C9: i64 = 38654705664;
pub const C12: i64 = 51539607552;
pub const C13: i64 = 55834574848;
pub const C15: i64 = 64424509440;
pub const C16: i64 = 68719476736;
pub const C20: i64 = 85899345920;
pub const C60: i64 = 257698037760;
pub const C100: i64 = 429496729600;
pub const C116: i64 = 498216206336;
pub const C180: i64 = 773094113280;
pub const C200: i64 = 858993459200;
pub const C360: i64 = 1546188226560;
pub const C500: i64 = 2147483648000;

/// One channel of the sRGB OETF.
pub open spec fn sp_srgb_oetf_ch(c: int) -> int {
    if c < SRGB_CUTOFF {
        sp_mul(c, SRGB_SLOPE as int)
    } else {
        sp_sub(sp_mul(SRGB_A as int, sp_pow(c, SRGB_INV_GAMMA as int)), SRGB_B as int)
    }
}

fn srgb_oetf_ch(c: i64) -> (r: i64)
    ensures
        r as int == sp_srgb_oetf_ch(c as int),
{
    if c < SRGB_CUTOFF {
        fx_mul(c, SRGB_SLOPE)
    } else {
        fx_sub(fx_mul(SRGB_A, fx_pow(c, SRGB_INV_GAMMA)), SRGB_B)
    }
}

/// The sRGB OETF applied to each channel.
pub open spec fn sp_srgb_oetf(v: Vec3) -> Vec3 {
    Vec3 {
        x: sp_srgb_oetf_ch(v.x as int) as i64,
        y: sp_srgb_oetf_ch(v.y as int) as i64,
        z: sp_srgb_oetf_ch(v.z as int) as i64,
    }
}

/// Applies the sRGB OETF (opto-electronic transfer function), sometimes
/// called 'gamma compensation': below the cutoff 0.0031308 a channel is
/// scaled by 12.92, above it mapped to `1.055 * c^(1/2.4) - 0.055`.
pub fn srgb_oetf(color: Vec3, _wp: WhitePoint) -> (r: Vec3)
    ensures
        r == sp_srgb_oetf(color),
{
    Vec3 { x: srgb_oetf_ch(color.x), y: srgb_oetf_ch(color.y), z: srgb_oetf_ch(color.z) }
}

/// One channel of the sRGB EOTF.
pub open spec fn sp_srgb_eotf_ch(c: int) -> int {
    if c < SRGB_ENC_CUTOFF {
        sp_div(c, SRGB_SLOPE as int)
    } else {
        sp_pow(sp_div(sp_add(c, SRGB_B as int), SRGB_A as int), SRGB_GAMMA as int)
    }
}

fn srgb_eotf_ch(c: i64) -> (r: i64)
    ensures
        r as int == sp_srgb_eotf_ch(c as int),
{
    if c < SRGB_ENC_CUTOFF {
        fx_div(c, SRGB_SLOPE)
    } else {
        fx_pow(fx_div(fx_add(c, SRGB_B), SRGB_A), SRGB_GAMMA)
    }
}

/// The sRGB EOTF applied to each channel.
pub open spec fn sp_srgb_eotf(v: Vec3) -> Vec3 {
    Vec3 {
        x: sp_srgb_eotf_ch(v.x as int) as i64,
        y: sp_srgb_eotf_ch(v.y as int) as i64,
        z: sp_srgb_eotf_ch(v.z as int) as i64,
    }
}

/// Applies the sRGB EOTF (electro-optical transfer function), the direct
/// inverse of the sRGB OETF: below 0.04045 a channel is divided by 12.92,
/// above it mapped to `((c + 0.055) / 1.055)^2.4`.
pub fn srgb_eotf(color: Vec3, _wp: WhitePoint) -> (r: Vec3)
    ensures
        r == sp_srgb_eotf(color),
{
    Vec3 { x: srgb_eotf_ch(color.x), y: srgb_eotf_ch(color.y), z: srgb_eotf_ch(color.z) }
}

/// One channel of the BT.601 OETF.
pub open spec fn sp_bt601_oetf_ch(c: int) -> int {
    if c < BT601_CUTOFF {
        sp_mul(BT601_SLOPE as int, c)
    } else {
        sp_sub(sp_mul(BT601_A as int, sp_pow(c, BT601_POW as int)), BT601_B as int)
    }
}

fn bt601_oetf_ch(c: i64) -> (r: i64)
    ensures
        r as int == sp_bt601_oetf_ch(c as int),
{
    if c < BT601_CUTOFF {
        fx_mul(BT601_SLOPE, c)
    } else {
        fx_sub(fx_mul(BT601_A, fx_pow(c, BT601_POW)), BT601_B)
    }
}

/// The BT.601 OETF applied to each channel.
pub open spec fn sp_bt601_oetf(v: Vec3) -> Vec3 {
    Vec3 {
        x: sp_bt601_oetf_ch(v.x as int) as i64,
        y: sp_bt601_oetf_ch(v.y as int) as i64,
        z: sp_bt601_oetf_ch(v.z as int) as i64,
    }
}

/// Applies the BT.601/BT.709/BT.2020 OETF: below the cutoff 0.0181 a
/// channel is scaled by 4.5, above it mapped to
/// `1.0993 * c^0.45 - 0.0993`.
pub fn bt601_oetf(color: Vec3, _wp: WhitePoint) -> (r: Vec3)
    ensures
        r == sp_bt601_oetf(color),
{
    Vec3 { x: bt601_oetf_ch(color.x), y: bt601_oetf_ch(color.y), z: bt601_oetf_ch(color.z) }
}

/// One channel of the inverse BT.601 OETF.
pub open spec fn sp_bt601_oetf_inverse_ch(c: int) -> int {
    if c < BT601_ENC_CUTOFF {
        sp_div(c, BT601_SLOPE as int)
    } else {
        sp_pow(sp_div(sp_add(c, BT601_B as int), BT601_A as int), BT601_INV_POW as int)
    }
}

fn bt601_oetf_inverse_ch(c: i64) -> (r: i64)
    ensures
        r as int == sp_bt601_oetf_inverse_ch(c as int),
{
    if c < BT601_ENC_CUTOFF {
        fx_div(c, BT601_SLOPE)
    } else {
        fx_pow(fx_div(fx_add(c, BT601_B), BT601_A), BT601_INV_POW)
    }
}

/// The inverse BT.601 OETF applied to each channel.
pub open spec fn sp_bt601_oetf_inverse(v: Vec3) -> Vec3 {
    Vec3 {
        x: sp_bt601_oetf_inverse_ch(v.x as int) as i64,
        y: sp_bt601_oetf_inverse_ch(v.y as int) as i64,
        z: sp_bt601_oetf_inverse_ch(v.z as int) as i64,
    }
}

/// Applies the inverse of the BT.601/BT.709/BT.2020 OETF.
pub fn bt601_oetf_inverse(color: Vec3, _wp: WhitePoint) -> (r: Vec3)
    ensures
        r == sp_bt601_oetf_inverse(color),
{
    Vec3 {
        x: bt601_oetf_inverse_ch(color.x),
        y: bt601_oetf_inverse_ch(color.y),
        z: bt601_oetf_inverse_ch(color.z),
    }
}

/// CIE xyY from XYZ: the chromaticity of the stimulus and its luminance.
pub open spec fn sp_xyz_to_xyy(v: Vec3) -> Vec3 {
    let s = sp_add(sp_add(v.x as int, v.y as int), v.z as int);
    Vec3 {
        x: sp_div(v.x as int, s) as i64,
        y: sp_div(v.y as int, s) as i64,
        z: v.y,
    }
}

/// CIE xyY from XYZ: `x = X/(X+Y+Z)`, `y = Y/(X+Y+Z)`, `Y` kept.
pub fn xyz_to_xyy(color: Vec3, _wp: WhitePoint) -> (r: Vec3)
    ensures
        r == sp_xyz_to_xyy(color),
{
    let s: i64 = fx_add(fx_add(color.x, color.y), color.z);
    Vec3 { x: fx_div(color.x, s), y: fx_div(color.y, s), z: color.y }
}

/// XYZ from CIE xyY.
pub open spec fn sp_xyy_to_xyz(v: Vec3) -> Vec3 {
    Vec3 {
        x: sp_mul(sp_div(v.z as int, v.y as int), v.x as int) as i64,
        y: v.z,
        z: sp_mul(
            sp_div(v.z as int, v.y as int),
            sp_sub(sp_sub(FX_ONE as int, v.x as int), v.y as int),
        ) as i64,
    }
}

/// XYZ from CIE xyY: `X = (Y/y) x`, `Z = (Y/y)(1 - x - y)`.
pub fn xyy_to_xyz(color: Vec3, _wp: WhitePoint) -> (r: Vec3)
    ensures
        r == sp_xyy_to_xyz(color),
{
    let ratio: i64 = fx_div(color.z, color.y);
    Vec3 {
        x: fx_mul(ratio, color.x),
        y: color.z,
        z: fx_mul(ratio, fx_sub(fx_sub(FX_ONE, color.x), color.y)),
    }
}

/// CIE 1960 UCS from XYZ.
pub open spec fn sp_xyz_to_cie_1960_ucs(v: Vec3) -> Vec3 {
    Vec3 {
        x: sp_mul(TWO_THIRDS as int, v.x as int) as i64,
        y: v.y,
        z: sp_mul(
            HALF as int,
            sp_add(sp_add(sp_neg(v.x as int), sp_mul(C3 as int, v.y as int)), v.z as int),
        ) as i64,
    }
}

/// CIE 1960 UCS from XYZ: `U = 2/3 X`, `V = Y`,
/// `W = (-X + 3Y + Z) / 2`.
pub fn xyz_to_cie_1960_ucs(color: Vec3, _wp: WhitePoint) -> (r: Vec3)
    ensures
        r == sp_xyz_to_cie_1960_ucs(color),
{
    Vec3 {
        x: fx_mul(TWO_THIRDS, color.x),
        y: color.y,
        z: fx_mul(HALF, fx_add(fx_add(fx_neg(color.x), fx_mul(C3, color.y)), color.z)),
    }
}

/// XYZ from CIE 1960 UCS.
pub open spec fn sp_cie_1960_ucs_to_xyz(v: Vec3) -> Vec3 {
    Vec3 {
        x: sp_mul(THREE_HALVES as int, v.x as int) as i64,
        y: v.y,
        z: sp_add(
            sp_sub(sp_mul(THREE_HALVES as int, v.x as int), sp_mul(C3 as int, v.y as int)),
            sp_mul(C2 as int, v.z as int),
        ) as i64,
    }
}

/// XYZ from CIE 1960 UCS: `X = 3/2 U`, `Y = V`,
/// `Z = 3/2 U - 3V + 2W`.
pub fn cie_1960_ucs_to_xyz(color: Vec3, _wp: WhitePoint) -> (r: Vec3)
    ensures
        r == sp_cie_1960_ucs_to_xyz(color),
{
    Vec3 {
        x: fx_mul(THREE_HALVES, color.x),
        y: color.y,
        z: fx_add(
            fx_sub(fx_mul(THREE_HALVES, color.x), fx_mul(C3, color.y)),
            fx_mul(C2, color.z),
        ),
    }
}

/// The uvV form of CIE 1960 UCS coordinates.
pub open spec fn sp_cie_1960_ucs_to_uvv(v: Vec3) -> Vec3 {
    let s = sp_add(sp_add(v.x as int, v.y as int), v.z as int);
    Vec3 {
        x: sp_div(v.x as int, s) as i64,
        y: sp_div(v.y as int, s) as i64,
        z: v.y,
    }
}

/// The uvV form of CIE 1960 UCS coordinates: `u = U/(U+V+W)`,
/// `v = V/(U+V+W)`, `V` kept.
pub fn cie_1960_ucs_to_uvv(color: Vec3, _wp: WhitePoint) -> (r: Vec3)
    ensures
        r == sp_cie_1960_ucs_to_uvv(color),
{
    let s: i64 = fx_add(fx_add(color.x, color.y), color.z);
    Vec3 { x: fx_div(color.x, s), y: fx_div(color.y, s), z: color.y }
}

/// CIE 1960 UCS coordinates from their uvV form.
pub open spec fn sp_cie_1960_uvv_to_ucs(v: Vec3) -> Vec3 {
    Vec3 {
        x: sp_mul(v.z as int, sp_div(v.x as int, v.y as int)) as i64,
        y: v.z,
        z: sp_div(
            sp_mul(sp_neg(v.z as int), sp_sub(sp_add(v.x as int, v.y as int), FX_ONE as int)),
            v.y as int,
        ) as i64,
    }
}

/// CIE 1960 UCS coordinates from their uvV form: `U = V (u/v)`,
/// `V` restored from the third component, `W = -V (u + v - 1) / v`.
pub fn cie_1960_uvv_to_ucs(color: Vec3, _wp: WhitePoint) -> (r: Vec3)
    ensures
        r == sp_cie_1960_uvv_to_ucs(color),
{
    Vec3 {
        x: fx_mul(color.z, fx_div(color.x, color.y)),
        y: color.z,
        z: fx_div(
            fx_mul(fx_neg(color.z), fx_sub(fx_add(color.x, color.y), FX_ONE)),
            color.y,
        ),
    }
}

/// XYZ from the uvV form of CIE 1960 UCS.
pub open spec fn sp_cie_1960_ucs_uvv_to_xyz(v: Vec3) -> Vec3 {
    sp_cie_1960_ucs_to_xyz(sp_cie_1960_uvv_to_ucs(v))
}

/// XYZ from the uvV form of CIE 1960 UCS.
pub fn cie_1960_ucs_uvv_to_xyz(color: Vec3, wp: WhitePoint) -> (r: Vec3)
    ensures
        r == sp_cie_1960_ucs_uvv_to_xyz(color),
{
    cie_1960_ucs_to_xyz(cie_1960_uvv_to_ucs(color, wp), wp)
}

/// The uvV form of CIE 1960 UCS from XYZ.
pub open spec fn sp_xyz_to_cie_1960_ucs_uvv(v: Vec3) -> Vec3 {
    sp_cie_1960_ucs_to_uvv(sp_xyz_to_cie_1960_ucs(v))
}

/// The uvV form of CIE 1960 UCS from XYZ.
pub fn xyz_to_cie_1960_ucs_uvv(color: Vec3, wp: WhitePoint) -> (r: Vec3)
    ensures
        r == sp_xyz_to_cie_1960_ucs_uvv(color),
{
    cie_1960_ucs_to_uvv(xyz_to_cie_1960_ucs(color, wp), wp)
}

/// The xyV form of CIE 1960 uvV coordinates.
pub open spec fn sp_cie_1960_uvv_to_xyv(v: Vec3) -> Vec3 {
    let d = sp_sub(sp_sub(sp_mul(C2 as int, v.x as int), sp_mul(C8 as int, v.y as int)), C4 as int);
    Vec3 {
        x: sp_mul(C3 as int, sp_div(v.x as int, d)) as i64,
        y: sp_mul(C2 as int, sp_div(v.y as int, d)) as i64,
        z: v.z,
    }
}

/// The xyV form of CIE 1960 uvV coordinates:
/// `x = 3u / (2u - 8v - 4)`, `y = 2v / (2u - 8v - 4)`, `V` kept.
pub fn cie_1960_uvv_to_xyv(color: Vec3, _wp: WhitePoint) -> (r: Vec3)
    ensures
        r == sp_cie_1960_uvv_to_xyv(color),
{
    let d: i64 = fx_sub(fx_sub(fx_mul(C2, color.x), fx_mul(C8, color.y)), C4);
    Vec3 { x: fx_mul(C3, fx_div(color.x, d)), y: fx_mul(C2, fx_div(color.y, d)), z: color.z }
}

/// The uvV form of CIE 1960 xyV coordinates.
pub open spec fn sp_cie_1960_xyv_to_uvv(v: Vec3) -> Vec3 {
    let d = sp_add(sp_sub(sp_mul(C12 as int, v.y as int), sp_mul(C2 as int, v.x as int)), C3 as int);
    Vec3 {
        x: sp_mul(C4 as int, sp_div(v.x as int, d)) as i64,
        y: sp_mul(C6 as int, sp_div(v.y as int, d)) as i64,
        z: v.z,
    }
}

/// The uvV form of CIE 1960 xyV coordinates:
/// `u = 4x / (12y - 2x + 3)`, `v = 6y / (12y - 2x + 3)`, `V` kept.
pub fn cie_1960_xyv_to_uvv(color: Vec3, _wp: WhitePoint) -> (r: Vec3)
    ensures
        r == sp_cie_1960_xyv_to_uvv(color),
{
    let d: i64 = fx_add(fx_sub(fx_mul(C12, color.y), fx_mul(C2, color.x)), C3);
    Vec3 { x: fx_mul(C4, fx_div(color.x, d)), y: fx_mul(C6, fx_div(color.y, d)), z: color.z }
}

/// The CIE 1964 UVW transform is deliberately not implemented; asking for
/// it fails explicitly with `None` rather than returning a wrong vector.
pub fn xyz_to_cie_1964_uvw(_color: Vec3, _wp: WhitePoint) -> (r: Option<Vec3>)
    ensures
        r is None,
{
    None
}

/// The inverse CIE 1964 UVW transform is deliberately not implemented;
/// asking for it fails explicitly with `None`.
pub fn cie_1964_uvw_to_xyz(_color: Vec3, _wp: WhitePoint) -> (r: Option<Vec3>)
    ensures
        r is None,
{
    None
}

/// The Oklab "M1" matrix, taking XYZ to an LMS-like cone response.
pub open spec fn sp_oklab_m1() -> Mat3 {
    Mat3 {
        m00: 3517290496i64,
        m01: 1554205824i64,
        m02: -553448256i64,
        m10: 141667536i64,
        m11: 3991364096i64,
        m12: 155244336i64,
        m20: 207018720i64,
        m21: 1135444480i64,
        m22: 2722372352i64,
    }
}

fn oklab_m1() -> (r: Mat3)
    ensures
        r == sp_oklab_m1(),
{
    Mat3 {
        m00: 3517290496,
        m01: 1554205824,
        m02: -553448256,
        m10: 141667536,
        m11: 3991364096,
        m12: 155244336,
        m20: 207018720,
        m21: 1135444480,
        m22: 2722372352,
    }
}

/// The Oklab "M2" matrix, taking the cube-rooted cone response to Lab.
pub open spec fn sp_oklab_m2() -> Mat3 {
    Mat3 {
        m00: 903894144i64,
        m01: 3408562432i64,
        m02: -17489308i64,
        m10: 8495438848i64,
        m11: -10430724096i64,
        m12: 1935285248i64,
        m20: 111256992i64,
        m21: 3361979136i64,
        m22: -3473235968i64,
    }
}

fn oklab_m2() -> (r: Mat3)
    ensures
        r == sp_oklab_m2(),
{
    Mat3 {
        m00: 903894144,
        m01: 3408562432,
        m02: -17489308,
        m10: 8495438848,
        m11: -10430724096,
        m12: 1935285248,
        m20: 111256992,
        m21: 3361979136,
        m22: -3473235968,
    }
}

/// The component-wise cube root.
pub open spec fn sp_cbrt_vec(v: Vec3) -> Vec3 {
    Vec3 {
        x: sp_cbrt(v.x as int) as i64,
        y: sp_cbrt(v.y as int) as i64,
        z: sp_cbrt(v.z as int) as i64,
    }
}

fn cbrt_vec(v: Vec3) -> (r: Vec3)
    ensures
        r == sp_cbrt_vec(v),
{
    Vec3 { x: fx_cbrt(v.x), y: fx_cbrt(v.y), z: fx_cbrt(v.z) }
}

/// The component-wise cube.
pub open spec fn sp_cube(c: int) -> int {
    sp_mul(sp_mul(c, c), c)
}

fn cube(c: i64) -> (r: i64)
    ensures
        r as int == sp_cube(c as int),
{
    fx_mul(fx_mul(c, c), c)
}

/// The component-wise cube of a vector.
pub open spec fn sp_cube_vec(v: Vec3) -> Vec3 {
    Vec3 {
        x: sp_cube(v.x as int) as i64,
        y: sp_cube(v.y as int) as i64,
        z: sp_cube(v.z as int) as i64,
    }
}

fn cube_vec(v: Vec3) -> (r: Vec3)
    ensures
        r == sp_cube_vec(v),
{
    Vec3 { x: cube(v.x), y: cube(v.y), z: cube(v.z) }
}

/// Oklab from XYZ: M1, a component-wise cube root (defined for negative
/// cone responses too), then M2.
pub open spec fn sp_xyz_to_ok_lab(v: Vec3) -> Vec3 {
    sp_mat_mul_vec(sp_oklab_m2(), sp_cbrt_vec(sp_mat_mul_vec(sp_oklab_m1(), v)))
}

/// Oklab from XYZ.
pub fn xyz_to_ok_lab(color: Vec3, _wp: WhitePoint) -> (r: Vec3)
    ensures
        r == sp_xyz_to_ok_lab(color),
{
    let lms: Vec3 = oklab_m1().mul_vec(color);
    let lms_cbrt: Vec3 = cbrt_vec(lms);
    oklab_m2().mul_vec(lms_cbrt)
}

/// XYZ from Oklab: the inverse of M2, a component-wise cube, then the
/// inverse of M1.
pub open spec fn sp_ok_lab_to_xyz(v: Vec3) -> Vec3 {
    sp_mat_mul_vec(
        sp_mat_inverse(sp_oklab_m1()),
        sp_cube_vec(sp_mat_mul_vec(sp_mat_inverse(sp_oklab_m2()), v)),
    )
}

/// XYZ from Oklab.
pub fn ok_lab_to_xyz(color: Vec3, _wp: WhitePoint) -> (r: Vec3)
    ensures
        r == sp_ok_lab_to_xyz(color),
{
    let lms: Vec3 = oklab_m2().inverse().mul_vec(color);
    let lms_cubed: Vec3 = cube_vec(lms);
    oklab_m1().inverse().mul_vec(lms_cubed)
}

/// Oklch from XYZ: the polar form of Oklab, with chroma the length of
/// (a, b) and hue their angle in radians.
pub open spec fn sp_xyz_to_ok_lch(v: Vec3) -> Vec3 {
    let lab = sp_xyz_to_ok_lab(v);
    Vec3 {
        x: lab.x,
        y: sp_sqrt(
            sp_add(sp_mul(lab.y as int, lab.y as int), sp_mul(lab.z as int, lab.z as int)),
        ) as i64,
        z: sp_atan2(lab.z as int, lab.y as int) as i64,
    }
}

/// Oklch from XYZ.
pub fn xyz_to_ok_lch(color: Vec3, wp: WhitePoint) -> (r: Vec3)
    ensures
        r == sp_xyz_to_ok_lch(color),
{
    let lab: Vec3 = xyz_to_ok_lab(color, wp);
    let chroma: i64 = fx_sqrt(fx_add(fx_mul(lab.y, lab.y), fx_mul(lab.z, lab.z)));
    let hue: i64 = fx_atan2(lab.z, lab.y);
    Vec3 { x: lab.x, y: chroma, z: hue }
}

/// XYZ from Oklch: (a, b) rebuilt from chroma and hue, then the Oklab
/// inverse.
pub open spec fn sp_ok_lch_to_xyz(v: Vec3) -> Vec3 {
    let sc = sp_sincos(v.z as int);
    sp_ok_lab_to_xyz(
        Vec3 {
            x: v.x,
            y: sp_mul(v.y as int, sc.1) as i64,
            z: sp_mul(v.y as int, sc.0) as i64,
        },
    )
}

/// XYZ from Oklch.
pub fn ok_lch_to_xyz(color: Vec3, wp: WhitePoint) -> (r: Vec3)
    ensures
        r == sp_ok_lch_to_xyz(color),
{
    let sc: (i64, i64) = fx_sincos(color.z);
    let a: i64 = fx_mul(color.y, sc.1);
    let b: i64 = fx_mul(color.y, sc.0);
    ok_lab_to_xyz(Vec3 { x: color.x, y: a, z: b }, wp)
}

/// The CIELAB per-channel curve: a cube root above the 0.008856 break,
/// a linear segment below it.
pub open spec fn sp_lab_f(c: int) -> int {
    if c > LAB_EPS {
        sp_cbrt(c)
    } else {
        sp_add(sp_mul(c, LAB_SLOPE as int), LAB_OFFSET as int)
    }
}

fn lab_f(c: i64) -> (r: i64)
    ensures
        r as int == sp_lab_f(c as int),
{
    if c > LAB_EPS {
        fx_cbrt(c)
    } else {
        fx_add(fx_mul(c, LAB_SLOPE), LAB_OFFSET)
    }
}

/// The inverse CIELAB per-channel curve, branching at the same 0.008856
/// break.
pub open spec fn sp_lab_f_inverse(c: int) -> int {
    if c > LAB_EPS {
        sp_cube(c)
    } else {
        sp_mul(LAB_INV_SLOPE as int, sp_sub(c, LAB_OFFSET as int))
    }
}

fn lab_f_inverse(c: i64) -> (r: i64)
    ensures
        r as int == sp_lab_f_inverse(c as int),
{
    if c > LAB_EPS {
        cube(c)
    } else {
        fx_mul(LAB_INV_SLOPE, fx_sub(c, LAB_OFFSET))
    }
}

/// CIELAB from XYZ, relative to the given white point.
pub open spec fn sp_xyz_to_cie_lab(v: Vec3, wp: WhitePoint) -> Vec3 {
    let w = wp.spec_values();
    let fx0 = sp_lab_f(sp_div(v.x as int, w.x as int));
    let fy = sp_lab_f(sp_div(v.y as int, w.y as int));
    let fz = sp_lab_f(sp_div(v.z as int, w.z as int));
    Vec3 {
        x: sp_sub(sp_mul(C116 as int, fy), C16 as int) as i64,
        y: sp_mul(C500 as int, sp_sub(fx0, fy)) as i64,
        z: sp_mul(C200 as int, sp_sub(fy, fz)) as i64,
    }
}

/// CIELAB from XYZ: the per-channel curve applied to X/Xw, Y/Yw, Z/Zw,
/// then `L = 116 fy - 16`, `a = 500 (fx - fy)`, `b = 200 (fy - fz)`.
pub fn xyz_to_cie_lab(color: Vec3, wp: WhitePoint) -> (r: Vec3)
    ensures
        r == sp_xyz_to_cie_lab(color, wp),
{
    let w: Vec3 = wp.values();
    let fx0: i64 = lab_f(fx_div(color.x, w.x));
    let fy: i64 = lab_f(fx_div(color.y, w.y));
    let fz: i64 = lab_f(fx_div(color.z, w.z));
    Vec3 {
        x: fx_sub(fx_mul(C116, fy), C16),
        y: fx_mul(C500, fx_sub(fx0, fy)),
        z: fx_mul(C200, fx_sub(fy, fz)),
    }
}

/// XYZ from CIELAB, relative to the given white point.
pub open spec fn sp_cie_lab_to_xyz(v: Vec3, wp: WhitePoint) -> Vec3 {
    let w = wp.spec_values();
    let l = sp_div(sp_add(v.x as int, C16 as int), C116 as int);
    let a = sp_div(v.y as int, C500 as int);
    let b = sp_div(v.z as int, C200 as int);
    Vec3 {
        x: sp_mul(w.x as int, sp_lab_f_inverse(sp_add(l, a))) as i64,
        y: sp_mul(w.y as int, sp_lab_f_inverse(l)) as i64,
        z: sp_mul(w.z as int, sp_lab_f_inverse(sp_sub(l, b))) as i64,
    }
}

/// XYZ from CIELAB: the inverse per-channel curve rescaled by the white
/// point.
pub fn cie_lab_to_xyz(color: Vec3, wp: WhitePoint) -> (r: Vec3)
    ensures
        r == sp_cie_lab_to_xyz(color, wp),
{
    let w: Vec3 = wp.values();
    let l: i64 = fx_div(fx_add(color.x, C16), C116);
    let a: i64 = fx_div(color.y, C500);
    let b: i64 = fx_div(color.z, C200);
    Vec3 {
        x: fx_mul(w.x, lab_f_inverse(fx_add(l, a))),
        y: fx_mul(w.y, lab_f_inverse(l)),
        z: fx_mul(w.z, lab_f_inverse(fx_sub(l, b))),
    }
}

/// CIELCh from CIELAB: chroma is the length of (a, b); hue is their
/// angle, in degrees wrapped to [0, 360).
pub open spec fn sp_cie_lab_to_cie_lch(v: Vec3) -> Vec3 {
    let h = sp_atan2(v.z as int, v.y as int);
    let hdeg = if h > 0 {
        sp_mul(sp_div(h, FX_PI as int), C180 as int)
    } else {
        sp_sub(C360 as int, sp_mul(sp_div(sp_abs(h), FX_PI as int), C180 as int))
    };
    Vec3 {
        x: v.x,
        y: sp_sqrt(sp_add(sp_mul(v.y as int, v.y as int), sp_mul(v.z as int, v.z as int))) as i64,
        z: hdeg as i64,
    }
}

/// CIELCh from CIELAB.
pub fn cie_lab_to_cie_lch(color: Vec3) -> (r: Vec3)
    ensures
        r == sp_cie_lab_to_cie_lch(color),
{
    let h: i64 = fx_atan2(color.z, color.y);
    let hdeg: i64 = if h > 0 {
        fx_mul(fx_div(h, FX_PI), C180)
    } else {
        fx_sub(C360, fx_mul(fx_div(fx_abs(h), FX_PI), C180))
    };
    let c: i64 = fx_sqrt(fx_add(fx_mul(color.y, color.y), fx_mul(color.z, color.z)));
    Vec3 { x: color.x, y: c, z: hdeg }
}

/// CIELAB from CIELCh: (a, b) rebuilt from chroma and the hue in degrees.
pub open spec fn sp_cie_lch_to_cie_lab(v: Vec3) -> Vec3 {
    let angle = sp_mul(sp_div(v.z as int, C360 as int), FX_TAU as int);
    let sc = sp_sincos(angle);
    Vec3 {
        x: v.x,
        y: sp_mul(v.y as int, sc.1) as i64,
        z: sp_mul(v.y as int, sc.0) as i64,
    }
}

/// CIELAB from CIELCh.
pub fn cie_lch_to_cie_lab(color: Vec3) -> (r: Vec3)
    ensures
        r == sp_cie_lch_to_cie_lab(color),
{
    let angle: i64 = fx_mul(fx_div(color.z, C360), FX_TAU);
    let sc: (i64, i64) = fx_sincos(angle);
    Vec3 { x: color.x, y: fx_mul(color.y, sc.1), z: fx_mul(color.y, sc.0) }
}

/// CIELCh from XYZ: through CIELAB.
pub open spec fn sp_xyz_to_cie_lch(v: Vec3, wp: WhitePoint) -> Vec3 {
    sp_cie_lab_to_cie_lch(sp_xyz_to_cie_lab(v, wp))
}

/// CIELCh from XYZ.
pub fn xyz_to_cie_lch(color: Vec3, wp: WhitePoint) -> (r: Vec3)
    ensures
        r == sp_xyz_to_cie_lch(color, wp),
{
    cie_lab_to_cie_lch(xyz_to_cie_lab(color, wp))
}

/// XYZ from CIELCh: through CIELAB.
pub open spec fn sp_cie_lch_to_xyz(v: Vec3, wp: WhitePoint) -> Vec3 {
    sp_cie_lab_to_xyz(sp_cie_lch_to_cie_lab(v), wp)
}

/// XYZ from CIELCh.
pub fn cie_lch_to_xyz(color: Vec3, wp: WhitePoint) -> (r: Vec3)
    ensures
        r == sp_cie_lch_to_xyz(color, wp),
{
    cie_lab_to_xyz(cie_lch_to_cie_lab(color), wp)
}

/// The u', v' chromaticity of a tristimulus, used by CIE 1976 Luv.
pub open spec fn sp_luv_uv(x: int, y: int, z: int) -> (int, int) {
    let d = sp_add(sp_add(x, sp_mul(C15 as int, y)), sp_mul(C3 as int, z));
    (sp_div(sp_mul(C4 as int, x), d), sp_div(sp_mul(C9 as int, y), d))
}

fn luv_uv(x: i64, y: i64, z: i64) -> (r: (i64, i64))
    ensures
        (r.0 as int, r.1 as int) == sp_luv_uv(x as int, y as int, z as int),
{
    let d: i64 = fx_add(fx_add(x, fx_mul(C15, y)), fx_mul(C3, z));
    (fx_div(fx_mul(C4, x), d), fx_div(fx_mul(C9, y), d))
}

/// CIE 1976 Luv from XYZ, relative to the given white point.
pub open spec fn sp_xyz_to_cie_1976_luv(v: Vec3, wp: WhitePoint) -> Vec3 {
    let uv = sp_luv_uv(v.x as int, v.y as int, v.z as int);
    let y0 = sp_div(v.y as int, C100 as int);
    let y1 = if y0 > LAB_EPS {
        sp_cbrt(y0)
    } else {
        sp_add(sp_mul(LUV_SLOPE as int, y0), LAB_OFFSET as int)
    };
    let lstar = sp_sub(sp_mul(C116 as int, y1), C16 as int);
    let w = wp.spec_values();
    let refuv = sp_luv_uv(w.x as int, w.y as int, w.z as int);
    Vec3 {
        x: lstar as i64,
        y: sp_mul(sp_mul(C13 as int, lstar), sp_sub(uv.0, refuv.0)) as i64,
        z: sp_mul(sp_mul(C13 as int, lstar), sp_sub(uv.1, refuv.1)) as i64,
    }
}

/// CIE 1976 Luv from XYZ: `L* = 116 f(Y/100) - 16` with the
/// 0.008856-break luminance curve, and `u* = 13 L* (u' - u'_ref)`,
/// `v* = 13 L* (v' - v'_ref)` against the white point's reference
/// chromaticity.
pub fn xyz_to_cie_1976_luv(color: Vec3, wp: WhitePoint) -> (r: Vec3)
    ensures
        r == sp_xyz_to_cie_1976_luv(color, wp),
{
    let uv: (i64, i64) = luv_uv(color.x, color.y, color.z);
    let y0: i64 = fx_div(color.y, C100);
    let y1: i64 = if y0 > LAB_EPS {
        fx_cbrt(y0)
    } else {
        fx_add(fx_mul(LUV_SLOPE, y0), LAB_OFFSET)
    };
    let lstar: i64 = fx_sub(fx_mul(C116, y1), C16);
    let w: Vec3 = wp.values();
    let refuv: (i64, i64) = luv_uv(w.x, w.y, w.z);
    Vec3 {
        x: lstar,
        y: fx_mul(fx_mul(C13, lstar), fx_sub(uv.0, refuv.0)),
        z: fx_mul(fx_mul(C13, lstar), fx_sub(uv.1, refuv.1)),
    }
}

/// XYZ from CIE 1976 Luv, relative to the given white point.
pub open spec fn sp_cie_1976_luv_to_xyz(v: Vec3, wp: WhitePoint) -> Vec3 {
    let y0 = sp_div(sp_add(v.x as int, C16 as int), C116 as int);
    let yy = if sp_cube(y0) > LAB_EPS {
        sp_mul(sp_cube(y0), C100 as int)
    } else {
        sp_mul(sp_div(sp_sub(y0, LAB_OFFSET as int), LUV_SLOPE as int), C100 as int)
    };
    let w = wp.spec_values();
    let refuv = sp_luv_uv(w.x as int, w.y as int, w.z as int);
    let u = sp_add(sp_div(v.y as int, sp_mul(C13 as int, v.x as int)), refuv.0);
    let vv = sp_add(sp_div(v.z as int, sp_mul(C13 as int, v.x as int)), refuv.1);
    Vec3 {
        x: sp_div(sp_mul(yy, sp_mul(C9 as int, u)), sp_mul(C4 as int, vv)) as i64,
        y: yy as i64,
        z: sp_div(
            sp_mul(
                yy,
                sp_sub(sp_sub(C12 as int, sp_mul(C3 as int, u)), sp_mul(C20 as int, vv)),
            ),
            sp_mul(C4 as int, vv),
        ) as i64,
    }
}

/// XYZ from CIE 1976 Luv: the luminance curve inverted, the u', v'
/// chromaticity recovered from `u*/(13 L*)` and `v*/(13 L*)`, then
/// `X = Y 9u'/(4v')` and `Z = Y (12 - 3u' - 20v')/(4v')`.
pub fn cie_1976_luv_to_xyz(color: Vec3, wp: WhitePoint) -> (r: Vec3)
    ensures
        r == sp_cie_1976_luv_to_xyz(color, wp),
{
    let y0: i64 = fx_div(fx_add(color.x, C16), C116);
    let y0cubed: i64 = cube(y0);
    let yy: i64 = if y0cubed > LAB_EPS {
        fx_mul(y0cubed, C100)
    } else {
        fx_mul(fx_div(fx_sub(y0, LAB_OFFSET), LUV_SLOPE), C100)
    };
    let w: Vec3 = wp.values();
    let refuv: (i64, i64) = luv_uv(w.x, w.y, w.z);
    let u: i64 = fx_add(fx_div(color.y, fx_mul(C13, color.x)), refuv.0);
    let vv: i64 = fx_add(fx_div(color.z, fx_mul(C13, color.x)), refuv.1);
    Vec3 {
        x: fx_div(fx_mul(yy, fx_mul(C9, u)), fx_mul(C4, vv)),
        y: yy,
        z: fx_div(
            fx_mul(yy, fx_sub(fx_sub(C12, fx_mul(C3, u)), fx_mul(C20, vv))),
            fx_mul(C4, vv),
        ),
    }
}

/// The HLG logarithmic-segment scale, 0.17883277.
pub const HLG_A: i64 = 768080899;

/// The HLG logarithmic-segment inner offset, 0.28466892.
pub const HLG_B: i64 = 1222643702;

/// The HLG logarithmic-segment outer offset, 0.55991073.
pub const HLG_C: i64 = 2404798274;

/// The HLG square-root-segment scale, 0.5.
pub const HLG_R: i64 = 2147483648;

/// One channel of the ARIB STD-B67 "Hybrid Log-Gamma" OETF: a scaled
/// square root up to 1.0, logarithmic above.
pub open spec fn sp_hlg_ch(c: int) -> int {
    if c <= FX_ONE {
        sp_mul(HLG_R as int, sp_sqrt(c))
    } else {
        sp_add(sp_mul(HLG_A as int, sp_ln(sp_sub(c, HLG_B as int))), HLG_C as int)
    }
}

fn hlg_ch(c: i64) -> (r: i64)
    ensures
        r as int == sp_hlg_ch(c as int),
{
    if c <= FX_ONE {
        fx_mul(HLG_R, fx_sqrt(c))
    } else {
        fx_add(fx_mul(HLG_A, fx_ln(fx_sub(c, HLG_B))), HLG_C)
    }
}

/// One channel of the inverse HLG OETF, branching at the OETF's value
/// at 1.0.
pub open spec fn sp_hlg_ch_inverse(c: int) -> int {
    if c <= sp_hlg_ch(FX_ONE as int) {
        let t = sp_div(c, HLG_R as int);
        sp_mul(t, t)
    } else {
        sp_add(sp_exp(sp_div(sp_sub(c, HLG_C as int), HLG_A as int)), HLG_B as int)
    }
}

fn hlg_ch_inverse(c: i64) -> (r: i64)
    ensures
        r as int == sp_hlg_ch_inverse(c as int),
{
    let threshold: i64 = hlg_ch(FX_ONE);
    if c <= threshold {
        let t: i64 = fx_div(c, HLG_R);
        fx_mul(t, t)
    } else {
        fx_add(fx_exp(fx_div(fx_sub(c, HLG_C), HLG_A)), HLG_B)
    }
}

/// The ARIB STD-B67 "Hybrid Log-Gamma" OETF applied to each channel.
pub open spec fn sp_arib_hlg_oetf(v: Vec3) -> Vec3 {
    Vec3 {
        x: sp_hlg_ch(v.x as int) as i64,
        y: sp_hlg_ch(v.y as int) as i64,
        z: sp_hlg_ch(v.z as int) as i64,
    }
}

/// ARIB STD-B67 or "Hybrid Log-Gamma".
pub fn arib_hlg_oetf(color: Vec3, _wp: WhitePoint) -> (r: Vec3)
    ensures
        r == sp_arib_hlg_oetf(color),
{
    Vec3 { x: hlg_ch(color.x), y: hlg_ch(color.y), z: hlg_ch(color.z) }
}

/// The inverse HLG OETF applied to each channel.
pub open spec fn sp_arib_hlg_oetf_inverse(v: Vec3) -> Vec3 {
    Vec3 {
        x: sp_hlg_ch_inverse(v.x as int) as i64,
        y: sp_hlg_ch_inverse(v.y as int) as i64,
        z: sp_hlg_ch_inverse(v.z as int) as i64,
    }
}

/// Inverse of ARIB STD-B67 or "Hybrid Log-Gamma".
pub fn arib_hlg_oetf_inverse(color: Vec3, _wp: WhitePoint) -> (r: Vec3)
    ensures
        r == sp_arib_hlg_oetf_inverse(color),
{
    Vec3 { x: hlg_ch_inverse(color.x), y: hlg_ch_inverse(color.y), z: hlg_ch_inverse(color.z) }
}

/// The PQ peak luminance, 10000.
pub const PQ_L_P: i64 = 42949672960000;

/// The PQ exponent m1, 0.1593017578125.
pub const PQ_M_1: i64 = 684195840;

/// The PQ exponent m2, 78.84375.
pub const PQ_M_2: i64 = 338631327744;

/// The inverse of the PQ exponent m1.
pub const PQ_M_1_D: i64 = 26961204666;

/// The inverse of the PQ exponent m2.
pub const PQ_M_2_D: i64 = 54474417;

/// The PQ constant c1, 0.8359375.
pub const PQ_C_1: i64 = 3590324224;

/// The PQ constant c2, 18.8515625.
pub const PQ_C_2: i64 = 80966844416;

/// The PQ constant c3, 18.6875.
pub const PQ_C_3: i64 = 80262201344;

/// One channel of the SMPTE ST 2084:2014 inverse EOTF (the "Perceptual
/// Quantizer" encoding).
pub open spec fn sp_pq_eotf_inverse_ch(c: int) -> int {
    let y_p = sp_pow(sp_div(c, PQ_L_P as int), PQ_M_1 as int);
    sp_pow(
        sp_div(
            sp_add(PQ_C_1 as int, sp_mul(PQ_C_2 as int, y_p)),
            sp_add(sp_mul(PQ_C_3 as int, y_p), FX_ONE as int),
        ),
        PQ_M_2 as int,
    )
}

/// SMPTE ST 2084:2014 perceptual electro-optical transfer function
/// inverse, on one channel.
pub fn st_2084_pq_eotf_inverse_float(f: i64) -> (r: i64)
    ensures
        r as int == sp_pq_eotf_inverse_ch(f as int),
{
    let y_p: i64 = fx_pow(fx_div(f, PQ_L_P), PQ_M_1);
    fx_pow(
        fx_div(fx_add(PQ_C_1, fx_mul(PQ_C_2, y_p)), fx_add(fx_mul(PQ_C_3, y_p), FX_ONE)),
        PQ_M_2,
    )
}

/// The inverse PQ EOTF applied to each channel.
pub open spec fn sp_st_2084_pq_eotf_inverse(v: Vec3) -> Vec3 {
    Vec3 {
        x: sp_pq_eotf_inverse_ch(v.x as int) as i64,
        y: sp_pq_eotf_inverse_ch(v.y as int) as i64,
        z: sp_pq_eotf_inverse_ch(v.z as int) as i64,
    }
}

/// SMPTE ST 2084:2014 perceptual electro-optical transfer function
/// inverse.
pub fn st_2084_pq_eotf_inverse(color: Vec3, _wp: WhitePoint) -> (r: Vec3)
    ensures
        r == sp_st_2084_pq_eotf_inverse(color),
{
    Vec3 {
        x: st_2084_pq_eotf_inverse_float(color.x),
        y: st_2084_pq_eotf_inverse_float(color.y),
        z: st_2084_pq_eotf_inverse_float(color.z),
    }
}

/// One channel of the SMPTE ST 2084:2014 EOTF.
pub open spec fn sp_pq_eotf_ch(c: int) -> int {
    let v_p = sp_pow(c, PQ_M_2_D as int);
    let n = sp_max(sp_sub(v_p, PQ_C_1 as int), 0);
    sp_mul(
        PQ_L_P as int,
        sp_pow(sp_div(n, sp_sub(PQ_C_2 as int, sp_mul(PQ_C_3 as int, v_p))), PQ_M_1_D as int),
    )
}

/// SMPTE ST 2084:2014 perceptual electro-optical transfer function, on
/// one channel.
pub fn st_2084_pq_eotf_float(f: i64) -> (r: i64)
    ensures
        r as int == sp_pq_eotf_ch(f as int),
{
    let v_p: i64 = fx_pow(f, PQ_M_2_D);
    let n: i64 = fx_max(fx_sub(v_p, PQ_C_1), 0);
    fx_mul(PQ_L_P, fx_pow(fx_div(n, fx_sub(PQ_C_2, fx_mul(PQ_C_3, v_p))), PQ_M_1_D))
}

/// The PQ EOTF applied to each channel.
pub open spec fn sp_st_2084_pq_eotf(v: Vec3) -> Vec3 {
    Vec3 {
        x: sp_pq_eotf_ch(v.x as int) as i64,
        y: sp_pq_eotf_ch(v.y as int) as i64,
        z: sp_pq_eotf_ch(v.z as int) as i64,
    }
}

/// SMPTE ST 2084:2014 perceptual electro-optical transfer function.
pub fn st_2084_pq_eotf(color: Vec3, _wp: WhitePoint) -> (r: Vec3)
    ensures
        r == sp_st_2084_pq_eotf(color),
{
    Vec3 {
        x: st_2084_pq_eotf_float(color.x),
        y: st_2084_pq_eotf_float(color.y),
        z: st_2084_pq_eotf_float(color.z),
    }
}

/// The BT.2100 RGB-to-LMS matrix used by ICtCp.
pub open spec fn sp_ict_cp_lms() -> Mat3 {
    Mat3 {
        m00: 1769994677i64,
        m01: 2250245036i64,
        m02: 274726724i64,
        m10: 716177207i64,
        m11: 3094347843i64,
        m12: 484442246i64,
        m20: 103808930i64,
        m21: 324010185i64,
        m22: 3867149899i64,
    }
}

fn ict_cp_lms() -> (r: Mat3)
    ensures
        r == sp_ict_cp_lms(),
{
    Mat3 {
        m00: 1769994677,
        m01: 2250245036,
        m02: 274726724,
        m10: 716177207,
        m11: 3094347843,
        m12: 484442246,
        m20: 103808930,
        m21: 324010185,
        m22: 3867149899,
    }
}

/// The BT.2100 LMS-to-RGB matrix used by ICtCp.
pub open spec fn sp_ict_cp_lms_inverse() -> Mat3 {
    Mat3 {
        m00: 14760127559i64,
        m01: -10765163729i64,
        m02: 299983709i64,
        m10: -3398736470i64,
        m11: 8519497128i64,
        m12: -825797657i64,
        m20: -111453542i64,
        m21: -424831107i64,
        m22: 4831236913i64,
    }
}

fn ict_cp_lms_inverse() -> (r: Mat3)
    ensures
        r == sp_ict_cp_lms_inverse(),
{
    Mat3 {
        m00: 14760127559,
        m01: -10765163729,
        m02: 299983709,
        m10: -3398736470,
        m11: 8519497128,
        m12: -825797657,
        m20: -111453542,
        m21: -424831107,
        m22: 4831236913,
    }
}

/// The matrix from PQ-encoded LMS to ICtCp.
pub open spec fn sp_ict_cp_from_pq() -> Mat3 {
    Mat3 {
        m00: 2147483648i64,
        m01: 2147483648i64,
        m02: 0i64,
        m10: 6931089373i64,
        m11: -14274280859i64,
        m12: 7343191485i64,
        m20: 18804096966i64,
        m21: -18234756102i64,
        m22: -569375224i64,
    }
}

fn ict_cp_from_pq() -> (r: Mat3)
    ensures
        r == sp_ict_cp_from_pq(),
{
    Mat3 {
        m00: 2147483648,
        m01: 2147483648,
        m02: 0,
        m10: 6931089373,
        m11: -14274280859,
        m12: 7343191485,
        m20: 18804096966,
        m21: -18234756102,
        m22: -569375224,
    }
}

/// The matrix from ICtCp to PQ-encoded LMS.
pub open spec fn sp_ict_cp_from_pq_inverse() -> Mat3 {
    Mat3 {
        m00: 4294967296i64,
        m01: 36975545i64,
        m02: 476870219i64,
        m10: 4294967296i64,
        m11: -36975545i64,
        m12: -476870219i64,
        m20: 4294967296i64,
        m21: 2405314830i64,
        m22: -1377082479i64,
    }
}

fn ict_cp_from_pq_inverse() -> (r: Mat3)
    ensures
        r == sp_ict_cp_from_pq_inverse(),
{
    Mat3 {
        m00: 4294967296,
        m01: 36975545,
        m02: 476870219,
        m10: 4294967296,
        m11: -36975545,
        m12: -476870219,
        m20: 4294967296,
        m21: 2405314830,
        m22: -1377082479,
    }
}

/// The matrix from HLG-encoded LMS to ICtCp.
pub open spec fn sp_ict_cp_from_hlg() -> Mat3 {
    Mat3 {
        m00: 2147483648i64,
        m01: 2147483648i64,
        m02: 0i64,
        m10: 3801089007i64,
        m11: -7827620847i64,
        m12: 4026531840i64,
        m20: 9961489448i64,
        m21: -9659467348i64,
        m22: -301989888i64,
    }
}

fn ict_cp_from_hlg() -> (r: Mat3)
    ensures
        r == sp_ict_cp_from_hlg(),
{
    Mat3 {
        m00: 2147483648,
        m01: 2147483648,
        m02: 0,
        m10: 3801089007,
        m11: -7827620847,
        m12: 4026531840,
        m20: 9961489448,
        m21: -9659467348,
        m22: -301989888,
    }
}

/// The matrix from ICtCp to HLG-encoded LMS.
pub open spec fn sp_ict_cp_from_hlg_inverse() -> Mat3 {
    Mat3 {
        m00: 4294958706i64,
        m01: 67510873i64,
        m02: 900143541i64,
        m10: 4294967296i64,
        m11: -67510873i64,
        m12: -900143541i64,
        m20: 4294967296i64,
        m21: 4386321250i64,
        m22: -2599636330i64,
    }
}

fn ict_cp_from_hlg_inverse() -> (r: Mat3)
    ensures
        r == sp_ict_cp_from_hlg_inverse(),
{
    Mat3 {
        m00: 4294958706,
        m01: 67510873,
        m02: 900143541,
        m10: 4294967296,
        m11: -67510873,
        m12: -900143541,
        m20: 4294967296,
        m21: 4386321250,
        m22: -2599636330,
    }
}

/// ICtCp with the PQ transfer function, from linear BT.2020 RGB.
pub open spec fn sp_rgb_to_ict_cp_pq(v: Vec3) -> Vec3 {
    sp_mat_mul_vec(
        sp_ict_cp_from_pq(),
        sp_st_2084_pq_eotf_inverse(sp_mat_mul_vec(sp_ict_cp_lms(), v)),
    )
}

/// ICtCp with the PQ transfer function.
pub fn rgb_to_ict_cp_pq(color: Vec3, _wp: WhitePoint) -> (r: Vec3)
    ensures
        r == sp_rgb_to_ict_cp_pq(color),
{
    let lms: Vec3 = ict_cp_lms().mul_vec(color);
    let pq: Vec3 = st_2084_pq_eotf_inverse(lms, WhitePoint::D65);
    ict_cp_from_pq().mul_vec(pq)
}

/// Linear BT.2020 RGB from ICtCp with the PQ transfer function.
pub open spec fn sp_ict_cp_pq_to_rgb(v: Vec3) -> Vec3 {
    sp_mat_mul_vec(
        sp_ict_cp_lms_inverse(),
        sp_st_2084_pq_eotf(sp_mat_mul_vec(sp_ict_cp_from_pq_inverse(), v)),
    )
}

/// Inverse ICtCp with the PQ transfer function.
pub fn ict_cp_pq_to_rgb(color: Vec3, _wp: WhitePoint) -> (r: Vec3)
    ensures
        r == sp_ict_cp_pq_to_rgb(color),
{
    let lms_pq: Vec3 = ict_cp_from_pq_inverse().mul_vec(color);
    let lms: Vec3 = st_2084_pq_eotf(lms_pq, WhitePoint::D65);
    ict_cp_lms_inverse().mul_vec(lms)
}

/// ICtCp with the HLG transfer function, from linear BT.2020 RGB.
pub open spec fn sp_rgb_to_ict_cp_hlg(v: Vec3) -> Vec3 {
    sp_mat_mul_vec(sp_ict_cp_from_hlg(), sp_arib_hlg_oetf(sp_mat_mul_vec(sp_ict_cp_lms(), v)))
}

/// ICtCp with the HLG transfer function.
pub fn rgb_to_ict_cp_hlg(color: Vec3, wp: WhitePoint) -> (r: Vec3)
    ensures
        r == sp_rgb_to_ict_cp_hlg(color),
{
    let lms: Vec3 = ict_cp_lms().mul_vec(color);
    let hlg: Vec3 = arib_hlg_oetf(lms, wp);
    ict_cp_from_hlg().mul_vec(hlg)
}

/// Linear BT.2020 RGB from ICtCp with the HLG transfer function.
pub open spec fn sp_ict_cp_hlg_to_rgb(v: Vec3) -> Vec3 {
    sp_mat_mul_vec(
        sp_ict_cp_lms_inverse(),
        sp_arib_hlg_oetf_inverse(sp_mat_mul_vec(sp_ict_cp_from_hlg_inverse(), v)),
    )
}

/// Inverse ICtCp with the HLG transfer function.
pub fn ict_cp_hlg_to_rgb(color: Vec3, wp: WhitePoint) -> (r: Vec3)
    ensures
        r == sp_ict_cp_hlg_to_rgb(color),
{
    let lms_hlg: Vec3 = ict_cp_from_hlg_inverse().mul_vec(color);
    let lms: Vec3 = arib_hlg_oetf_inverse(lms_hlg, wp);
    ict_cp_lms_inverse().mul_vec(lms)
}

/// The hue (degrees in [0, 360)) and chroma of an RGB value, given its
/// largest and smallest components, by the six-sector hue formula.
pub open spec fn sp_hsx_hue_chroma(v: Vec3, x_max: int, x_min: int) -> (int, int) {
    let chroma = sp_sub(x_max, x_min);
    let hue0 = if chroma == 0 {
        0
    } else if v.x > v.y && v.x > v.z {
        sp_mul(C60 as int, sp_div(sp_sub(v.y as int, v.z as int), chroma))
    } else if v.y > v.x && v.y > v.z {
        sp_mul(C60 as int, sp_add(C2 as int, sp_div(sp_sub(v.z as int, v.x as int), chroma)))
    } else {
        sp_mul(C60 as int, sp_add(C4 as int, sp_div(sp_sub(v.x as int, v.y as int), chroma)))
    };
    let hue = if hue0 < 0 {
        sp_add(C360 as int, hue0)
    } else {
        hue0
    };
    (hue, chroma)
}

fn hsx_hue_chroma(v: Vec3, x_max: i64, x_min: i64) -> (r: (i64, i64))
    ensures
        (r.0 as int, r.1 as int) == sp_hsx_hue_chroma(v, x_max as int, x_min as int),
{
    let chroma: i64 = fx_sub(x_max, x_min);
    let hue0: i64 = if chroma == 0 {
        0
    } else if v.x > v.y && v.x > v.z {
        fx_mul(C60, fx_div(fx_sub(v.y, v.z), chroma))
    } else if v.y > v.x && v.y > v.z {
        fx_mul(C60, fx_add(C2, fx_div(fx_sub(v.z, v.x), chroma)))
    } else {
        fx_mul(C60, fx_add(C4, fx_div(fx_sub(v.x, v.y), chroma)))
    };
    let hue: i64 = if hue0 < 0 {
        fx_add(C360, hue0)
    } else {
        hue0
    };
    (hue, chroma)
}

/// HSL from RGB: the six-sector hue, and lightness the average of the
/// largest and smallest components.
pub open spec fn sp_rgb_to_hsl(v: Vec3) -> Vec3 {
    let x_max = sp_max(v.x as int, sp_max(v.y as int, v.z as int));
    let x_min = sp_min(v.x as int, sp_min(v.y as int, v.z as int));
    let hc = sp_hsx_hue_chroma(v, x_max, x_min);
    let lightness = sp_div(sp_add(x_max, x_min), C2 as int);
    let saturation = if lightness <= 0 || lightness >= FX_ONE {
        0
    } else {
        sp_div(sp_sub(x_max, lightness), sp_min(lightness, sp_sub(FX_ONE as int, lightness)))
    };
    Vec3 { x: hc.0 as i64, y: saturation as i64, z: lightness as i64 }
}

/// HSL from RGB.
pub fn rgb_to_hsl(color: Vec3, _wp: WhitePoint) -> (r: Vec3)
    ensures
        r == sp_rgb_to_hsl(color),
{
    let x_max: i64 = fx_max(color.x, fx_max(color.y, color.z));
    let x_min: i64 = fx_min(color.x, fx_min(color.y, color.z));
    let hc: (i64, i64) = hsx_hue_chroma(color, x_max, x_min);
    let lightness: i64 = fx_div(fx_add(x_max, x_min), C2);
    let saturation: i64 = if lightness <= 0 || lightness >= FX_ONE {
        0
    } else {
        fx_div(fx_sub(x_max, lightness), fx_min(lightness, fx_sub(FX_ONE, lightness)))
    };
    Vec3 { x: hc.0, y: saturation, z: lightness }
}

/// HSV from RGB: the six-sector hue, and value the largest component.
pub open spec fn sp_rgb_to_hsv(v: Vec3) -> Vec3 {
    let x_max = sp_max(v.x as int, sp_max(v.y as int, v.z as int));
    let x_min = sp_min(v.x as int, sp_min(v.y as int, v.z as int));
    let hc = sp_hsx_hue_chroma(v, x_max, x_min);
    let saturation = if x_max == 0 {
        0
    } else {
        sp_div(hc.1, x_max)
    };
    Vec3 { x: hc.0 as i64, y: saturation as i64, z: x_max as i64 }
}

/// HSV from RGB.
pub fn rgb_to_hsv(color: Vec3, _wp: WhitePoint) -> (r: Vec3)
    ensures
        r == sp_rgb_to_hsv(color),
{
    let x_max: i64 = fx_max(color.x, fx_max(color.y, color.z));
    let x_min: i64 = fx_min(color.x, fx_min(color.y, color.z));
    let hc: (i64, i64) = hsx_hue_chroma(color, x_max, x_min);
    let saturation: i64 = if x_max == 0 {
        0
    } else {
        fx_div(hc.1, x_max)
    };
    Vec3 { x: hc.0, y: saturation, z: x_max }
}

/// HSI from RGB: the six-sector hue, and intensity the average of the
/// three components.
pub open spec fn sp_rgb_to_hsi(v: Vec3) -> Vec3 {
    let x_max = sp_max(v.x as int, sp_max(v.y as int, v.z as int));
    let x_min = sp_min(v.x as int, sp_min(v.y as int, v.z as int));
    let hc = sp_hsx_hue_chroma(v, x_max, x_min);
    let intensity = sp_mul(sp_add(sp_add(v.x as int, v.y as int), v.z as int), ONE_THIRD as int);
    let saturation = if intensity == 0 {
        0
    } else {
        sp_sub(FX_ONE as int, sp_div(x_min, intensity))
    };
    Vec3 { x: hc.0 as i64, y: saturation as i64, z: intensity as i64 }
}

/// HSI from RGB.
pub fn rgb_to_hsi(color: Vec3, _wp: WhitePoint) -> (r: Vec3)
    ensures
        r == sp_rgb_to_hsi(color),
{
    let x_max: i64 = fx_max(color.x, fx_max(color.y, color.z));
    let x_min: i64 = fx_min(color.x, fx_min(color.y, color.z));
    let hc: (i64, i64) = hsx_hue_chroma(color, x_max, x_min);
    let intensity: i64 = fx_mul(fx_add(fx_add(color.x, color.y), color.z), ONE_THIRD);
    let saturation: i64 = if intensity == 0 {
        0
    } else {
        fx_sub(FX_ONE, fx_div(x_min, intensity))
    };
    Vec3 { x: hc.0, y: saturation, z: intensity }
}

/// RGB (before the lightness-match shift) from the hue sector, chroma
/// and the second-largest component.
pub open spec fn sp_rgb_from_hcx(hue_prime: int, chroma: int, largest: int) -> (int, int, int) {
    if hue_prime < FX_ONE {
        (chroma, largest, 0)
    } else if hue_prime < C2 {
        (largest, chroma, 0)
    } else if hue_prime < C3 {
        (0, chroma, largest)
    } else if hue_prime < C4 {
        (0, largest, chroma)
    } else if hue_prime < C5 {
        (largest, 0, chroma)
    } else {
        (chroma, 0, largest)
    }
}

fn rgb_from_hcx(hue_prime: i64, chroma: i64, largest: i64) -> (r: (i64, i64, i64))
    ensures
        (r.0 as int, r.1 as int, r.2 as int) == sp_rgb_from_hcx(
            hue_prime as int,
            chroma as int,
            largest as int,
        ),
{
    if hue_prime < FX_ONE {
        (chroma, largest, 0)
    } else if hue_prime < C2 {
        (largest, chroma, 0)
    } else if hue_prime < C3 {
        (0, chroma, largest)
    } else if hue_prime < C4 {
        (0, largest, chroma)
    } else if hue_prime < C5 {
        (largest, 0, chroma)
    } else {
        (chroma, 0, largest)
    }
}

/// The triangle wave `1 - |h mod 2 - 1|` of the hue sector, the weight of
/// the second-largest component.
pub open spec fn sp_hue_triangle(hue_prime: int) -> int {
    sp_sub(FX_ONE as int, sp_abs(sp_sub(sp_rem(hue_prime, C2 as int), FX_ONE as int)))
}

fn hue_triangle(hue_prime: i64) -> (r: i64)
    ensures
        r as int == sp_hue_triangle(hue_prime as int),
{
    fx_sub(FX_ONE, fx_abs(fx_sub(fx_rem(hue_prime, C2), FX_ONE)))
}

/// RGB from HSL.
pub open spec fn sp_hsl_to_rgb(v: Vec3) -> Vec3 {
    let chroma = sp_mul(
        sp_sub(FX_ONE as int, sp_abs(sp_sub(sp_mul(C2 as int, v.z as int), FX_ONE as int))),
        v.y as int,
    );
    let hue_prime = sp_div(v.x as int, C60 as int);
    let largest = sp_mul(chroma, sp_hue_triangle(hue_prime));
    let light_match = sp_sub(v.z as int, sp_div(chroma, C2 as int));
    let rgb = sp_rgb_from_hcx(hue_prime, chroma, largest);
    Vec3 {
        x: sp_add(rgb.0, light_match) as i64,
        y: sp_add(rgb.1, light_match) as i64,
        z: sp_add(rgb.2, light_match) as i64,
    }
}

/// RGB from HSL: the hue sector rebuilt through the chroma and
/// second-largest component, shifted by the lightness match.
pub fn hsl_to_rgb(color: Vec3, _wp: WhitePoint) -> (r: Vec3)
    ensures
        r == sp_hsl_to_rgb(color),
{
    let chroma: i64 = fx_mul(
        fx_sub(FX_ONE, fx_abs(fx_sub(fx_mul(C2, color.z), FX_ONE))),
        color.y,
    );
    let hue_prime: i64 = fx_div(color.x, C60);
    let largest: i64 = fx_mul(chroma, hue_triangle(hue_prime));
    let light_match: i64 = fx_sub(color.z, fx_div(chroma, C2));
    let rgb: (i64, i64, i64) = rgb_from_hcx(hue_prime, chroma, largest);
    Vec3 {
        x: fx_add(rgb.0, light_match),
        y: fx_add(rgb.1, light_match),
        z: fx_add(rgb.2, light_match),
    }
}

/// RGB from HSV.
pub open spec fn sp_hsv_to_rgb(v: Vec3) -> Vec3 {
    let chroma = sp_mul(v.z as int, v.y as int);
    let hue_prime = sp_div(v.x as int, C60 as int);
    let largest = sp_mul(chroma, sp_hue_triangle(hue_prime));
    let light_match = sp_sub(v.z as int, chroma);
    let rgb = sp_rgb_from_hcx(hue_prime, chroma, largest);
    Vec3 {
        x: sp_add(rgb.0, light_match) as i64,
        y: sp_add(rgb.1, light_match) as i64,
        z: sp_add(rgb.2, light_match) as i64,
    }
}

/// RGB from HSV.
pub fn hsv_to_rgb(color: Vec3, _wp: WhitePoint) -> (r: Vec3)
    ensures
        r == sp_hsv_to_rgb(color),
{
    let chroma: i64 = fx_mul(color.z, color.y);
    let hue_prime: i64 = fx_div(color.x, C60);
    let largest: i64 = fx_mul(chroma, hue_triangle(hue_prime));
    let light_match: i64 = fx_sub(color.z, chroma);
    let rgb: (i64, i64, i64) = rgb_from_hcx(hue_prime, chroma, largest);
    Vec3 {
        x: fx_add(rgb.0, light_match),
        y: fx_add(rgb.1, light_match),
        z: fx_add(rgb.2, light_match),
    }
}

/// RGB from HSI.
pub open spec fn sp_hsi_to_rgb(v: Vec3) -> Vec3 {
    let hue_prime = sp_div(v.x as int, C60 as int);
    let zz = sp_hue_triangle(hue_prime);
    let chroma = sp_div(
        sp_mul(sp_mul(C3 as int, v.z as int), v.y as int),
        sp_add(FX_ONE as int, zz),
    );
    let largest = sp_mul(chroma, zz);
    let light_match = sp_mul(v.z as int, sp_sub(FX_ONE as int, v.y as int));
    let rgb = sp_rgb_from_hcx(hue_prime, chroma, largest);
    Vec3 {
        x: sp_add(rgb.0, light_match) as i64,
        y: sp_add(rgb.1, light_match) as i64,
        z: sp_add(rgb.2, light_match) as i64,
    }
}

/// RGB from HSI.
pub fn hsi_to_rgb(color: Vec3, _wp: WhitePoint) -> (r: Vec3)
    ensures
        r == sp_hsi_to_rgb(color),
{
    let hue_prime: i64 = fx_div(color.x, C60);
    let zz: i64 = hue_triangle(hue_prime);
    let chroma: i64 = fx_div(fx_mul(fx_mul(C3, color.z), color.y), fx_add(FX_ONE, zz));
    let largest: i64 = fx_mul(chroma, zz);
    let light_match: i64 = fx_mul(color.z, fx_sub(FX_ONE, color.y));
    let rgb: (i64, i64, i64) = rgb_from_hcx(hue_prime, chroma, largest);
    Vec3 {
        x: fx_add(rgb.0, light_match),
        y: fx_add(rgb.1, light_match),
        z: fx_add(rgb.2, light_match),
    }
}

/// The forward transform named by a tag, linear to non-linear; the
/// identity for tags that name no implemented transform.
pub open spec fn sp_apply_forward(tag: TransformFn, v: Vec3, wp: WhitePoint) -> Vec3 {
    match tag {
        TransformFn::NONE => v,
        TransformFn::Srgb => sp_srgb_oetf(v),
        TransformFn::OkLab => sp_xyz_to_ok_lab(v),
        TransformFn::OkLch => sp_xyz_to_ok_lch(v),
        TransformFn::CieXyY => sp_xyz_to_xyy(v),
        TransformFn::CieLab => sp_xyz_to_cie_lab(v, wp),
        TransformFn::CieLch => sp_xyz_to_cie_lch(v, wp),
        TransformFn::Cie1960Ucs => sp_xyz_to_cie_1960_ucs(v),
        TransformFn::Cie1960UcsUvV => sp_xyz_to_cie_1960_ucs_uvv(v),
        TransformFn::Cie1964Uvw => v,
        TransformFn::Cie1976Luv => sp_xyz_to_cie_1976_luv(v, wp),
        TransformFn::Hsl => sp_rgb_to_hsl(v),
        TransformFn::Hsv => sp_rgb_to_hsv(v),
        TransformFn::Hsi => sp_rgb_to_hsi(v),
        TransformFn::IctCpPq => sp_rgb_to_ict_cp_pq(v),
        TransformFn::IctCpHlg => sp_rgb_to_ict_cp_hlg(v),
        TransformFn::Bt601 => sp_bt601_oetf(v),
        TransformFn::Pq => sp_st_2084_pq_eotf_inverse(v),
    }
}

/// The forward transform named by an implemented tag.
pub fn apply_forward(tag: TransformFn, color: Vec3, wp: WhitePoint) -> (r: Vec3)
    requires
        tag.is_implemented(),
    ensures
        r == sp_apply_forward(tag, color, wp),
{
    match tag {
        TransformFn::NONE => color,
        TransformFn::Srgb => srgb_oetf(color, wp),
        TransformFn::OkLab => xyz_to_ok_lab(color, wp),
        TransformFn::OkLch => xyz_to_ok_lch(color, wp),
        TransformFn::CieXyY => xyz_to_xyy(color, wp),
        TransformFn::CieLab => xyz_to_cie_lab(color, wp),
        TransformFn::CieLch => xyz_to_cie_lch(color, wp),
        TransformFn::Cie1960Ucs => xyz_to_cie_1960_ucs(color, wp),
        TransformFn::Cie1960UcsUvV => xyz_to_cie_1960_ucs_uvv(color, wp),
        TransformFn::Cie1964Uvw => color,
        TransformFn::Cie1976Luv => xyz_to_cie_1976_luv(color, wp),
        TransformFn::Hsl => rgb_to_hsl(color, wp),
        TransformFn::Hsv => rgb_to_hsv(color, wp),
        TransformFn::Hsi => rgb_to_hsi(color, wp),
        TransformFn::IctCpPq => rgb_to_ict_cp_pq(color, wp),
        TransformFn::IctCpHlg => rgb_to_ict_cp_hlg(color, wp),
        TransformFn::Bt601 => bt601_oetf(color, wp),
        TransformFn::Pq => st_2084_pq_eotf_inverse(color, wp),
    }
}

/// The inverse transform named by a tag, non-linear to linear; the
/// identity for tags that name no implemented transform.
pub open spec fn sp_apply_inverse(tag: TransformFn, v: Vec3, wp: WhitePoint) -> Vec3 {
    match tag {
        TransformFn::NONE => v,
        TransformFn::Srgb => sp_srgb_eotf(v),
        TransformFn::OkLab => sp_ok_lab_to_xyz(v),
        TransformFn::OkLch => sp_ok_lch_to_xyz(v),
        TransformFn::CieXyY => sp_xyy_to_xyz(v),
        TransformFn::CieLab => sp_cie_lab_to_xyz(v, wp),
        TransformFn::CieLch => sp_cie_lch_to_xyz(v, wp),
        TransformFn::Cie1960Ucs => sp_cie_1960_ucs_to_xyz(v),
        TransformFn::Cie1960UcsUvV => sp_cie_1960_ucs_uvv_to_xyz(v),
        TransformFn::Cie1964Uvw => v,
        TransformFn::Cie1976Luv => sp_cie_1976_luv_to_xyz(v, wp),
        TransformFn::Hsl => sp_hsl_to_rgb(v),
        TransformFn::Hsv => sp_hsv_to_rgb(v),
        TransformFn::Hsi => sp_hsi_to_rgb(v),
        TransformFn::IctCpPq => sp_ict_cp_pq_to_rgb(v),
        TransformFn::IctCpHlg => sp_ict_cp_hlg_to_rgb(v),
        TransformFn::Bt601 => sp_bt601_oetf_inverse(v),
        TransformFn::Pq => sp_st_2084_pq_eotf(v),
    }
}

/// The inverse transform named by an implemented tag.
pub fn apply_inverse(tag: TransformFn, color: Vec3, wp: WhitePoint) -> (r: Vec3)
    requires
        tag.is_implemented(),
    ensures
        r == sp_apply_inverse(tag, color, wp),
{
    match tag {
        TransformFn::NONE => color,
        TransformFn::Srgb => srgb_eotf(color, wp),
        TransformFn::OkLab => ok_lab_to_xyz(color, wp),
        TransformFn::OkLch => ok_lch_to_xyz(color, wp),
        TransformFn::CieXyY => xyy_to_xyz(color, wp),
        TransformFn::CieLab => cie_lab_to_xyz(color, wp),
        TransformFn::CieLch => cie_lch_to_xyz(color, wp),
        TransformFn::Cie1960Ucs => cie_1960_ucs_to_xyz(color, wp),
        TransformFn::Cie1960UcsUvV => cie_1960_ucs_uvv_to_xyz(color, wp),
        TransformFn::Cie1964Uvw => color,
        TransformFn::Cie1976Luv => cie_1976_luv_to_xyz(color, wp),
        TransformFn::Hsl => hsl_to_rgb(color, wp),
        TransformFn::Hsv => hsv_to_rgb(color, wp),
        TransformFn::Hsi => hsi_to_rgb(color, wp),
        TransformFn::IctCpPq => ict_cp_pq_to_rgb(color, wp),
        TransformFn::IctCpHlg => ict_cp_hlg_to_rgb(color, wp),
        TransformFn::Bt601 => bt601_oetf_inverse(color, wp),
        TransformFn::Pq => st_2084_pq_eotf(color, wp),
    }
}

/// Whether a (source, destination) pair of tags names a transform stage
/// the registry can build: at least one side is a real transform, and
/// each non-`NONE` side is implemented.
pub open spec fn sp_transform_pair_ok(src: TransformFn, dst: TransformFn) -> bool {
    (src.spec_is_implemented() || dst.spec_is_implemented()) && (src == TransformFn::NONE
        || src.spec_is_implemented()) && (dst == TransformFn::NONE || dst.spec_is_implemented())
}

/// A composed transform stage: the inverse of the source tag (taking its
/// coordinates back to linear), then the forward of the destination tag.
#[derive(Debug, Copy, Clone, PartialEq, Eq, Hash, Structural)]
pub struct ColorTransform {
    pub src: TransformFn,
    pub dst: TransformFn,
}

/// What a composed transform stage computes: the source inverse if the
/// source is a real transform, then the destination forward likewise.
pub open spec fn sp_color_transform_apply(t: ColorTransform, v: Vec3, wp: WhitePoint) -> Vec3 {
    let c1 = if t.src.spec_is_implemented() {
        sp_apply_inverse(t.src, v, wp)
    } else {
        v
    };
    if t.dst.spec_is_implemented() {
        sp_apply_forward(t.dst, c1, wp)
    } else {
        c1
    }
}

impl ColorTransform {
    /// The composed stage for a pair of tags, or `None` when the pair
    /// names no transform work at all or asks for an unimplemented
    /// transform.
    pub fn new(src_transform: TransformFn, dst_transform: TransformFn) -> (r: Option<
        ColorTransform,
    >)
        ensures
            r is Some <==> sp_transform_pair_ok(src_transform, dst_transform),
            r is Some ==> r == Some(
                (ColorTransform { src: src_transform, dst: dst_transform }),
            ),
    {
        if (src_transform.is_implemented() || dst_transform.is_implemented()) && (src_transform
            == TransformFn::NONE || src_transform.is_implemented()) && (dst_transform
            == TransformFn::NONE || dst_transform.is_implemented()) {
            Some(ColorTransform { src: src_transform, dst: dst_transform })
        } else {
            None
        }
    }

    /// Runs the stage: the source inverse (if any), then the destination
    /// forward (if any).
    pub fn apply(&self, color: Vec3, white_point: WhitePoint) -> (r: Vec3)
        ensures
            r == sp_color_transform_apply(*self, color, white_point),
    {
        let c1: Vec3 = if self.src.is_implemented() {
            apply_inverse(self.src, color, white_point)
        } else {
            color
        };
        if self.dst.is_implemented() {
            apply_forward(self.dst, c1, white_point)
        } else {
            c1
        }
    }
}

} // verus!
