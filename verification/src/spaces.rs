//! The built-in named color spaces.

use vstd::prelude::*;
use crate::color::ColorSpace;
use crate::color::RgbPrimaries;
use crate::color::TransformFn;
use crate::color::WhitePoint;

verus! {

/// Linear sRGB: a linear encoding in BT.709 primaries with a D65 white point.  Equivalent to `bt_709`.
pub fn linear_srgb() -> (r: ColorSpace)
    ensures
        r == (ColorSpace {
            primaries: RgbPrimaries::Bt709,
            white_point: WhitePoint::D65,
            transform_fn: TransformFn::NONE,
        }),
{
    ColorSpace::new(RgbPrimaries::Bt709, WhitePoint::D65, TransformFn::NONE)
}

/// Encoded sRGB: linear sRGB with the sRGB OETF applied (also called 'gamma-compressed').
pub fn encoded_srgb() -> (r: ColorSpace)
    ensures
        r == (ColorSpace {
            primaries: RgbPrimaries::Bt709,
            white_point: WhitePoint::D65,
            transform_fn: TransformFn::Srgb,
        }),
{
    ColorSpace::new(RgbPrimaries::Bt709, WhitePoint::D65, TransformFn::Srgb)
}

/// BT.709: a linear encoding in BT.709 primaries with a D65 white point.  Equivalent to `linear_srgb`.
pub fn bt_709() -> (r: ColorSpace)
    ensures
        r == (ColorSpace {
            primaries: RgbPrimaries::Bt709,
            white_point: WhitePoint::D65,
            transform_fn: TransformFn::NONE,
        }),
{
    ColorSpace::new(RgbPrimaries::Bt709, WhitePoint::D65, TransformFn::NONE)
}

/// Encoded BT.709: BT.709 with the BT.709 OETF applied.
pub fn encoded_bt_709() -> (r: ColorSpace)
    ensures
        r == (ColorSpace {
            primaries: RgbPrimaries::Bt709,
            white_point: WhitePoint::D65,
            transform_fn: TransformFn::Bt601,
        }),
{
    ColorSpace::new(RgbPrimaries::Bt709, WhitePoint::D65, TransformFn::Bt601)
}

/// BT.2020: a linear encoding in BT.2020 primaries with a D65 white point.  BT.2100 has the same linear color space.
pub fn bt_2020() -> (r: ColorSpace)
    ensures
        r == (ColorSpace {
            primaries: RgbPrimaries::Bt2020,
            white_point: WhitePoint::D65,
            transform_fn: TransformFn::NONE,
        }),
{
    ColorSpace::new(RgbPrimaries::Bt2020, WhitePoint::D65, TransformFn::NONE)
}

/// Encoded BT.2020: BT.2020 with the BT.2020 OETF applied.
pub fn encoded_bt_2020() -> (r: ColorSpace)
    ensures
        r == (ColorSpace {
            primaries: RgbPrimaries::Bt2020,
            white_point: WhitePoint::D65,
            transform_fn: TransformFn::Bt601,
        }),
{
    ColorSpace::new(RgbPrimaries::Bt2020, WhitePoint::D65, TransformFn::Bt601)
}

/// Encoded BT.2100 PQ: the linear BT.2100 space with the Perceptual Quantizer inverse EOTF applied.
pub fn encoded_bt_2100_pq() -> (r: ColorSpace)
    ensures
        r == (ColorSpace {
            primaries: RgbPrimaries::Bt2020,
            white_point: WhitePoint::D65,
            transform_fn: TransformFn::Pq,
        }),
{
    ColorSpace::new(RgbPrimaries::Bt2020, WhitePoint::D65, TransformFn::Pq)
}

/// ACEScg: a linear encoding in AP1 primaries with a D60 white point.
pub fn aces_cg() -> (r: ColorSpace)
    ensures
        r == (ColorSpace {
            primaries: RgbPrimaries::Ap1,
            white_point: WhitePoint::D60,
            transform_fn: TransformFn::NONE,
        }),
{
    ColorSpace::new(RgbPrimaries::Ap1, WhitePoint::D60, TransformFn::NONE)
}

/// ACES2065-1: a linear encoding in AP0 primaries with a D60 white point.
pub fn aces_2065_1() -> (r: ColorSpace)
    ensures
        r == (ColorSpace {
            primaries: RgbPrimaries::Ap0,
            white_point: WhitePoint::D60,
            transform_fn: TransformFn::NONE,
        }),
{
    ColorSpace::new(RgbPrimaries::Ap0, WhitePoint::D60, TransformFn::NONE)
}

/// CIE RGB: the original RGB space, defined in CIE RGB primaries with white point E.
pub fn cie_rgb() -> (r: ColorSpace)
    ensures
        r == (ColorSpace {
            primaries: RgbPrimaries::CieRgb,
            white_point: WhitePoint::E,
            transform_fn: TransformFn::NONE,
        }),
{
    ColorSpace::new(RgbPrimaries::CieRgb, WhitePoint::E, TransformFn::NONE)
}

/// The CIE XYZ reference color space, with white point D65.
pub fn cie_xyz() -> (r: ColorSpace)
    ensures
        r == (ColorSpace {
            primaries: RgbPrimaries::CieXyz,
            white_point: WhitePoint::D65,
            transform_fn: TransformFn::NONE,
        }),
{
    ColorSpace::new(RgbPrimaries::CieXyz, WhitePoint::D65, TransformFn::NONE)
}

/// Oklab: a non-linear, perceptual encoding over XYZ, with a D65 white point.
pub fn ok_lab() -> (r: ColorSpace)
    ensures
        r == (ColorSpace {
            primaries: RgbPrimaries::CieXyz,
            white_point: WhitePoint::D65,
            transform_fn: TransformFn::OkLab,
        }),
{
    ColorSpace::new(RgbPrimaries::CieXyz, WhitePoint::D65, TransformFn::OkLab)
}

/// Oklch: the LCh (polar) variant of Oklab.
pub fn ok_lch() -> (r: ColorSpace)
    ensures
        r == (ColorSpace {
            primaries: RgbPrimaries::CieXyz,
            white_point: WhitePoint::D65,
            transform_fn: TransformFn::OkLch,
        }),
{
    ColorSpace::new(RgbPrimaries::CieXyz, WhitePoint::D65, TransformFn::OkLch)
}

/// ICtCp with the PQ transfer function, over BT.2020 primaries with a D65 white point.
pub fn ict_cp_pq() -> (r: ColorSpace)
    ensures
        r == (ColorSpace {
            primaries: RgbPrimaries::Bt2020,
            white_point: WhitePoint::D65,
            transform_fn: TransformFn::IctCpPq,
        }),
{
    ColorSpace::new(RgbPrimaries::Bt2020, WhitePoint::D65, TransformFn::IctCpPq)
}

/// ICtCp with the HLG transfer function, over BT.2020 primaries with a D65 white point.
pub fn ict_cp_hlg() -> (r: ColorSpace)
    ensures
        r == (ColorSpace {
            primaries: RgbPrimaries::Bt2020,
            white_point: WhitePoint::D65,
            transform_fn: TransformFn::IctCpHlg,
        }),
{
    ColorSpace::new(RgbPrimaries::Bt2020, WhitePoint::D65, TransformFn::IctCpHlg)
}

/// Pro Photo RGB: a linear encoding in Pro Photo primaries with a D50 white point.
pub fn pro_photo() -> (r: ColorSpace)
    ensures
        r == (ColorSpace {
            primaries: RgbPrimaries::ProPhoto,
            white_point: WhitePoint::D50,
            transform_fn: TransformFn::NONE,
        }),
{
    ColorSpace::new(RgbPrimaries::ProPhoto, WhitePoint::D50, TransformFn::NONE)
}

/// Apple RGB: a linear encoding in Apple primaries with a D65 white point.
pub fn apple() -> (r: ColorSpace)
    ensures
        r == (ColorSpace {
            primaries: RgbPrimaries::Apple,
            white_point: WhitePoint::D65,
            transform_fn: TransformFn::NONE,
        }),
{
    ColorSpace::new(RgbPrimaries::Apple, WhitePoint::D65, TransformFn::NONE)
}

/// P3-D60 (ACES cinema): a linear encoding in P3 primaries with a D60 white point.
pub fn p3_d60() -> (r: ColorSpace)
    ensures
        r == (ColorSpace {
            primaries: RgbPrimaries::P3,
            white_point: WhitePoint::D60,
            transform_fn: TransformFn::NONE,
        }),
{
    ColorSpace::new(RgbPrimaries::P3, WhitePoint::D60, TransformFn::NONE)
}

/// P3-DCI (theater): a linear encoding in P3 primaries with the P3-DCI white point.
pub fn p3_theater() -> (r: ColorSpace)
    ensures
        r == (ColorSpace {
            primaries: RgbPrimaries::P3,
            white_point: WhitePoint::P3Dci,
            transform_fn: TransformFn::NONE,
        }),
{
    ColorSpace::new(RgbPrimaries::P3, WhitePoint::P3Dci, TransformFn::NONE)
}

/// Display P3 by Apple: a linear encoding in P3 primaries with a D65 white point.
pub fn display_p3() -> (r: ColorSpace)
    ensures
        r == (ColorSpace {
            primaries: RgbPrimaries::P3,
            white_point: WhitePoint::D65,
            transform_fn: TransformFn::NONE,
        }),
{
    ColorSpace::new(RgbPrimaries::P3, WhitePoint::D65, TransformFn::NONE)
}

/// Encoded Display P3: Display P3 with the sRGB OETF applied.
pub fn encoded_display_p3() -> (r: ColorSpace)
    ensures
        r == (ColorSpace {
            primaries: RgbPrimaries::P3,
            white_point: WhitePoint::D65,
            transform_fn: TransformFn::Srgb,
        }),
{
    ColorSpace::new(RgbPrimaries::P3, WhitePoint::D65, TransformFn::Srgb)
}

/// Adobe RGB (1998): a linear encoding in Adobe 1998 primaries with a D65 white point.
pub fn adobe_1998() -> (r: ColorSpace)
    ensures
        r == (ColorSpace {
            primaries: RgbPrimaries::Adobe1998,
            white_point: WhitePoint::D65,
            transform_fn: TransformFn::NONE,
        }),
{
    ColorSpace::new(RgbPrimaries::Adobe1998, WhitePoint::D65, TransformFn::NONE)
}

/// Adobe Wide Gamut RGB: a linear encoding in Adobe Wide primaries with a D50 white point.
pub fn adobe_wide() -> (r: ColorSpace)
    ensures
        r == (ColorSpace {
            primaries: RgbPrimaries::AdobeWide,
            white_point: WhitePoint::D50,
            transform_fn: TransformFn::NONE,
        }),
{
    ColorSpace::new(RgbPrimaries::AdobeWide, WhitePoint::D50, TransformFn::NONE)
}

/// The contents of [`all_color_spaces`], in order.
pub open spec fn sp_all_color_spaces() -> Seq<ColorSpace> {
    seq![
        (ColorSpace { primaries: RgbPrimaries::Bt709, white_point: WhitePoint::D65, transform_fn: TransformFn::NONE }),
        (ColorSpace { primaries: RgbPrimaries::Bt709, white_point: WhitePoint::D65, transform_fn: TransformFn::Srgb }),
        (ColorSpace { primaries: RgbPrimaries::Bt709, white_point: WhitePoint::D65, transform_fn: TransformFn::NONE }),
        (ColorSpace { primaries: RgbPrimaries::Bt709, white_point: WhitePoint::D65, transform_fn: TransformFn::Bt601 }),
        (ColorSpace { primaries: RgbPrimaries::Bt2020, white_point: WhitePoint::D65, transform_fn: TransformFn::NONE }),
        (ColorSpace { primaries: RgbPrimaries::Bt2020, white_point: WhitePoint::D65, transform_fn: TransformFn::Bt601 }),
        (ColorSpace { primaries: RgbPrimaries::Bt2020, white_point: WhitePoint::D65, transform_fn: TransformFn::Pq }),
        (ColorSpace { primaries: RgbPrimaries::Ap1, white_point: WhitePoint::D60, transform_fn: TransformFn::NONE }),
        (ColorSpace { primaries: RgbPrimaries::Ap0, white_point: WhitePoint::D60, transform_fn: TransformFn::NONE }),
        (ColorSpace { primaries: RgbPrimaries::CieRgb, white_point: WhitePoint::E, transform_fn: TransformFn::NONE }),
        (ColorSpace { primaries: RgbPrimaries::CieXyz, white_point: WhitePoint::D65, transform_fn: TransformFn::NONE }),
        (ColorSpace { primaries: RgbPrimaries::CieXyz, white_point: WhitePoint::D65, transform_fn: TransformFn::OkLab }),
        (ColorSpace { primaries: RgbPrimaries::Bt2020, white_point: WhitePoint::D65, transform_fn: TransformFn::IctCpPq }),
        (ColorSpace { primaries: RgbPrimaries::Bt2020, white_point: WhitePoint::D65, transform_fn: TransformFn::IctCpHlg }),
        (ColorSpace { primaries: RgbPrimaries::ProPhoto, white_point: WhitePoint::D50, transform_fn: TransformFn::NONE }),
        (ColorSpace { primaries: RgbPrimaries::Apple, white_point: WhitePoint::D65, transform_fn: TransformFn::NONE }),
        (ColorSpace { primaries: RgbPrimaries::P3, white_point: WhitePoint::D60, transform_fn: TransformFn::NONE }),
        (ColorSpace { primaries: RgbPrimaries::P3, white_point: WhitePoint::P3Dci, transform_fn: TransformFn::NONE }),
        (ColorSpace { primaries: RgbPrimaries::P3, white_point: WhitePoint::D65, transform_fn: TransformFn::NONE }),
        (ColorSpace { primaries: RgbPrimaries::P3, white_point: WhitePoint::D65, transform_fn: TransformFn::Srgb }),
        (ColorSpace { primaries: RgbPrimaries::Adobe1998, white_point: WhitePoint::D65, transform_fn: TransformFn::NONE }),
        (ColorSpace { primaries: RgbPrimaries::AdobeWide, white_point: WhitePoint::D50, transform_fn: TransformFn::NONE }),
    ]
}

/// Every built-in color space, in a fixed order.
pub fn all_color_spaces() -> (r: Vec<ColorSpace>)
    ensures
        r@ == sp_all_color_spaces(),
{
    let mut v: Vec<ColorSpace> = Vec::new();
    v.push(linear_srgb());
    v.push(encoded_srgb());
    v.push(bt_709());
    v.push(encoded_bt_709());
    v.push(bt_2020());
    v.push(encoded_bt_2020());
    v.push(encoded_bt_2100_pq());
    v.push(aces_cg());
    v.push(aces_2065_1());
    v.push(cie_rgb());
    v.push(cie_xyz());
    v.push(ok_lab());
    v.push(ict_cp_pq());
    v.push(ict_cp_hlg());
    v.push(pro_photo());
    v.push(apple());
    v.push(p3_d60());
    v.push(p3_theater());
    v.push(display_p3());
    v.push(encoded_display_p3());
    v.push(adobe_1998());
    v.push(adobe_wide());
    proof {
        assert(v@ =~= sp_all_color_spaces());
    }
    v
}

} // verus!
