//! The color-space data model: primaries, white points, transform-function
//! tags, and the `ColorSpace` descriptor built from them.
//!
//! Chromaticities and tristimulus values are fixed-point numbers scaled by
//! 2^32, like every coordinate in this crate.

use vstd::prelude::*;
use crate::vecmat::Vec3;
use crate::transform::ColorTransform;
use crate::transform::sp_color_transform_apply;
use crate::conversion::ColorConversion;
use crate::conversion::sp_conversion_apply;
use crate::conversion::sp_conversion_new;

verus! {

/// Identifies an invertible mapping of colors in a linear [`ColorSpace`],
/// or `NONE` for a linear space.
#[derive(Debug, Copy, Clone, PartialEq, Eq, Hash, Structural)]
#[allow(non_camel_case_types)]
pub enum TransformFn {
    NONE,
    /// The sRGB transfer functions (aka 'gamma correction').
    Srgb,
    /// Oklab conversion from XYZ.
    OkLab,
    /// Oklch (Oklab's LCh variant) conversion from XYZ.
    OkLch,
    /// CIE xyY transform.
    CieXyY,
    /// CIELAB transform.
    CieLab,
    /// CIELCh transform.
    CieLch,
    /// CIE 1960 UCS transform.
    Cie1960Ucs,
    /// CIE 1960 UCS transform in uvV form.
    Cie1960UcsUvV,
    /// CIE 1964 UVW transform.
    Cie1964Uvw,
    /// CIE 1976 Luv transform.
    Cie1976Luv,
    /// (Hue, Saturation, Lightness), where L is the average of the largest
    /// and smallest color components.
    Hsl,
    /// (Hue, Saturation, Value), where V is the largest component.
    Hsv,
    /// (Hue, Saturation, Intensity), where I is the average of the three
    /// components.
    Hsi,
    /// BT.2100 ICtCp with the PQ transfer function.
    IctCpPq,
    /// BT.2100 ICtCp with the HLG transfer function.
    IctCpHlg,
    /// The BT.601/BT.709/BT.2020 (equivalent) OETF and inverse.
    Bt601,
    /// SMPTE ST 2084:2014, the "Perceptual Quantizer" transfer function of
    /// BT.2100.
    Pq,
}

impl TransformFn {
    /// Whether the registry holds a (forward, inverse) pair for this tag.
    /// The CIE 1964 UVW pair is deliberately absent; `NONE` names no
    /// transform at all.
    pub open spec fn spec_is_implemented(&self) -> bool {
        *self != TransformFn::Cie1964Uvw && *self != TransformFn::NONE
    }

    /// Whether the registry holds a (forward, inverse) pair for this tag.
    #[verifier::when_used_as_spec(spec_is_implemented)]
    pub fn is_implemented(&self) -> (r: bool)
        ensures
            r == self.spec_is_implemented(),
    {
        !matches!(self, TransformFn::Cie1964Uvw | TransformFn::NONE)
    }
}

/// A set of primary colors picked to define an RGB color space.
#[derive(Debug, Copy, Clone, PartialEq, Eq, Hash, Structural)]
#[allow(non_camel_case_types)]
pub enum RgbPrimaries {
    /// A degenerate all-zero set of primaries, undefined for conversion.
    NONE,
    /// BT.709 is the sRGB primaries.
    Bt709,
    /// BT.2020 uses the same primaries as BT.2100.
    Bt2020,
    Ap0,
    Ap1,
    /// P3 is the primaries for DCI-P3 and the variations with different
    /// white points.
    P3,
    Adobe1998,
    AdobeWide,
    Apple,
    ProPhoto,
    CieRgb,
    /// The reference XYZ color space.
    CieXyz,
}

impl RgbPrimaries {
    /// The (x, y) chromaticity of each of the three primaries.
    pub open spec fn spec_values(&self) -> ((i64, i64), (i64, i64), (i64, i64)) {
        match self {
            RgbPrimaries::NONE => ((0i64, 0i64), (0i64, 0i64), (0i64, 0i64)),
            RgbPrimaries::Bt709 => ((2748779069i64, 1417339208i64), (1288490189i64, 2576980378i64), (644245094i64, 257698038i64)),
            RgbPrimaries::Bt2020 => ((3040836846i64, 1254130450i64), (730144440i64, 3423088935i64), (562640716i64, 197568496i64)),
            RgbPrimaries::Ap0 => ((3155512472i64, 1139454824i64), (0i64, 4294967296i64), (429497i64, -330712482i64)),
            RgbPrimaries::Ap1 => ((3062311682i64, 1258425418i64), (708669604i64, 3564822856i64), (549755814i64, 188978561i64)),
            RgbPrimaries::P3 => ((2920577761i64, 1374389535i64), (1138166333i64, 2963527434i64), (644245094i64, 257698038i64)),
            RgbPrimaries::Adobe1998 => ((2748779069i64, 1417339208i64), (901943132i64, 3049426780i64), (644245094i64, 257698038i64)),
            RgbPrimaries::AdobeWide => ((3156800963i64, 1138166333i64), (493921239i64, 3547642986i64), (674309865i64, 77309411i64)),
            RgbPrimaries::Apple => ((2684354560i64, 1460288881i64), (1202590843i64, 2555505541i64), (665719931i64, 300647711i64)),
            RgbPrimaries::ProPhoto => ((3155508177i64, 1139459119i64), (685463896i64, 3609503400i64), (157187213i64, 450972i64)),
            RgbPrimaries::CieRgb => ((3156800963i64, 1138166333i64), (1176821039i64, 3079491551i64), (717259538i64, 38654706i64)),
            RgbPrimaries::CieXyz => ((4294967296i64, 0i64), (0i64, 4294967296i64), (0i64, 0i64)),
        }
    }

    /// The (x, y) chromaticity of each of the three primaries.
    #[verifier::when_used_as_spec(spec_values)]
    pub fn values(&self) -> (r: ((i64, i64), (i64, i64), (i64, i64)))
        ensures
            r == self.spec_values(),
    {
        match self {
            RgbPrimaries::NONE => ((0i64, 0i64), (0i64, 0i64), (0i64, 0i64)),
            RgbPrimaries::Bt709 => ((2748779069i64, 1417339208i64), (1288490189i64, 2576980378i64), (644245094i64, 257698038i64)),
            RgbPrimaries::Bt2020 => ((3040836846i64, 1254130450i64), (730144440i64, 3423088935i64), (562640716i64, 197568496i64)),
            RgbPrimaries::Ap0 => ((3155512472i64, 1139454824i64), (0i64, 4294967296i64), (429497i64, -330712482i64)),
            RgbPrimaries::Ap1 => ((3062311682i64, 1258425418i64), (708669604i64, 3564822856i64), (549755814i64, 188978561i64)),
            RgbPrimaries::P3 => ((2920577761i64, 1374389535i64), (1138166333i64, 2963527434i64), (644245094i64, 257698038i64)),
            RgbPrimaries::Adobe1998 => ((2748779069i64, 1417339208i64), (901943132i64, 3049426780i64), (644245094i64, 257698038i64)),
            RgbPrimaries::AdobeWide => ((3156800963i64, 1138166333i64), (493921239i64, 3547642986i64), (674309865i64, 77309411i64)),
            RgbPrimaries::Apple => ((2684354560i64, 1460288881i64), (1202590843i64, 2555505541i64), (665719931i64, 300647711i64)),
            RgbPrimaries::ProPhoto => ((3155508177i64, 1139459119i64), (685463896i64, 3609503400i64), (157187213i64, 450972i64)),
            RgbPrimaries::CieRgb => ((3156800963i64, 1138166333i64), (1176821039i64, 3079491551i64), (717259538i64, 38654706i64)),
            RgbPrimaries::CieXyz => ((4294967296i64, 0i64), (0i64, 4294967296i64), (0i64, 0i64)),
        }
    }
}

/// Defines the color white ("achromatic point") in an RGB color system.
///
/// White points are derived from an "illuminant", a reference lighting
/// condition given by a spectral power distribution.
#[derive(Debug, Copy, Clone, PartialEq, Eq, Hash, Structural)]
#[allow(non_camel_case_types)]
pub enum WhitePoint {
    /// A degenerate all-zero white point, undefined for conversion.
    NONE,
    /// Incandescent/tungsten.
    A,
    /// Old direct sunlight at noon.
    B,
    /// Old daylight.
    C,
    /// Equal energy.
    E,
    /// ICC profile PCS.
    D50,
    /// Mid-morning daylight.
    D55,
    D60,
    /// Daylight, sRGB, Adobe-RGB.
    D65,
    /// North sky daylight.
    D75,
    /// P3-DCI white point, slightly greenish.
    P3Dci,
    /// Cool fluorescent.
    F2,
    /// Daylight fluorescent, D65 simulator.
    F7,
    /// Ultralume 40, Philips TL84.
    F11,
}

impl WhitePoint {
    /// The XYZ tristimulus of the illuminant, normalized to Y = 1.
    pub open spec fn spec_values(&self) -> Vec3 {
        match self {
            WhitePoint::NONE => (Vec3 { x: 0i64, y: 0i64, z: 0i64 }),
            WhitePoint::A => (Vec3 { x: 4718021575i64, y: 4294967296i64, z: 1528364112i64 }),
            WhitePoint::B => (Vec3 { x: 4255109999i64, y: 4294967296i64, z: 3660299979i64 }),
            WhitePoint::C => (Vec3 { x: 4212246226i64, y: 4294967296i64, z: 5078025733i64 }),
            WhitePoint::D50 => (Vec3 { x: 4141293366i64, y: 4294967296i64, z: 3544249962i64 }),
            WhitePoint::D55 => (Vec3 { x: 4109510608i64, y: 4294967296i64, z: 3957769414i64 }),
            WhitePoint::D60 => (Vec3 { x: 4090097356i64, y: 4294967296i64, z: 4331861065i64 }),
            WhitePoint::D65 => (Vec3 { x: 4082237566i64, y: 4294967296i64, z: 4676489241i64 }),
            WhitePoint::D75 => (Vec3 { x: 4079016340i64, y: 4294967296i64, z: 5267261992i64 }),
            WhitePoint::P3Dci => (Vec3 { x: 3842221456i64, y: 4294967296i64, z: 4099185311i64 }),
            WhitePoint::E => (Vec3 { x: 4294967296i64, y: 4294967296i64, z: 4294967296i64 }),
            WhitePoint::F2 => (Vec3 { x: 4260006262i64, y: 4294967296i64, z: 2894507310i64 }),
            WhitePoint::F7 => (Vec3 { x: 4081979868i64, y: 4294967296i64, z: 4670648085i64 }),
            WhitePoint::F11 => (Vec3 { x: 4336284881i64, y: 4294967296i64, z: 2763811455i64 }),
        }
    }

    /// The XYZ tristimulus of the illuminant, normalized to Y = 1.
    #[verifier::when_used_as_spec(spec_values)]
    pub fn values(&self) -> (r: Vec3)
        ensures
            r == self.spec_values(),
    {
        match self {
            WhitePoint::NONE => (Vec3 { x: 0i64, y: 0i64, z: 0i64 }),
            WhitePoint::A => (Vec3 { x: 4718021575i64, y: 4294967296i64, z: 1528364112i64 }),
            WhitePoint::B => (Vec3 { x: 4255109999i64, y: 4294967296i64, z: 3660299979i64 }),
            WhitePoint::C => (Vec3 { x: 4212246226i64, y: 4294967296i64, z: 5078025733i64 }),
            WhitePoint::D50 => (Vec3 { x: 4141293366i64, y: 4294967296i64, z: 3544249962i64 }),
            WhitePoint::D55 => (Vec3 { x: 4109510608i64, y: 4294967296i64, z: 3957769414i64 }),
            WhitePoint::D60 => (Vec3 { x: 4090097356i64, y: 4294967296i64, z: 4331861065i64 }),
            WhitePoint::D65 => (Vec3 { x: 4082237566i64, y: 4294967296i64, z: 4676489241i64 }),
            WhitePoint::D75 => (Vec3 { x: 4079016340i64, y: 4294967296i64, z: 5267261992i64 }),
            WhitePoint::P3Dci => (Vec3 { x: 3842221456i64, y: 4294967296i64, z: 4099185311i64 }),
            WhitePoint::E => (Vec3 { x: 4294967296i64, y: 4294967296i64, z: 4294967296i64 }),
            WhitePoint::F2 => (Vec3 { x: 4260006262i64, y: 4294967296i64, z: 2894507310i64 }),
            WhitePoint::F7 => (Vec3 { x: 4081979868i64, y: 4294967296i64, z: 4670648085i64 }),
            WhitePoint::F11 => (Vec3 { x: 4336284881i64, y: 4294967296i64, z: 2763811455i64 }),
        }
    }
}

/// A color space defined by its [primaries][RgbPrimaries], [white
/// point][WhitePoint], and an optional invertible [transform
/// function][TransformFn].
///
/// A linear color space is a linear transformation of the CIE XYZ
/// coordinate space; a non-linear space is an invertible mapping from a
/// linear space's coordinate system.
#[derive(Debug, Copy, Clone, PartialEq, Eq, Hash, Structural)]
pub struct ColorSpace {
    pub primaries: RgbPrimaries,
    pub white_point: WhitePoint,
    pub transform_fn: TransformFn,
}

impl ColorSpace {
    /// A color space from its three parts.
    pub fn new(primaries: RgbPrimaries, white_point: WhitePoint, transform_fn: TransformFn) -> (r:
        ColorSpace)
        ensures
            r == (ColorSpace { primaries, white_point, transform_fn }),
    {
        ColorSpace { primaries, white_point, transform_fn }
    }

    /// A linear color space from primaries and a white point.
    pub fn linear(primaries: RgbPrimaries, white_point: WhitePoint) -> (r: ColorSpace)
        ensures
            r == (ColorSpace { primaries, white_point, transform_fn: TransformFn::NONE }),
    {
        ColorSpace { primaries, white_point, transform_fn: TransformFn::NONE }
    }

    /// Whether no non-linear transform is applied.
    pub open spec fn spec_is_linear(&self) -> bool {
        self.transform_fn == TransformFn::NONE
    }

    /// Whether no non-linear transform is applied.
    #[verifier::when_used_as_spec(spec_is_linear)]
    pub fn is_linear(&self) -> (r: bool)
        ensures
            r == self.spec_is_linear(),
    {
        self.transform_fn == TransformFn::NONE
    }

    /// The same primaries and white point with the transform stripped.
    pub open spec fn spec_as_linear(&self) -> ColorSpace {
        ColorSpace {
            primaries: self.primaries,
            white_point: self.white_point,
            transform_fn: TransformFn::NONE,
        }
    }

    /// The same primaries and white point with the transform stripped.
    #[verifier::when_used_as_spec(spec_as_linear)]
    pub fn as_linear(&self) -> (r: ColorSpace)
        ensures
            r == self.spec_as_linear(),
    {
        ColorSpace {
            primaries: self.primaries,
            white_point: self.white_point,
            transform_fn: TransformFn::NONE,
        }
    }

    /// The primaries.
    pub fn primaries(&self) -> (r: RgbPrimaries)
        ensures
            r == self.primaries,
    {
        self.primaries
    }

    /// The white point.
    pub fn white_point(&self) -> (r: WhitePoint)
        ensures
            r == self.white_point,
    {
        self.white_point
    }

    /// The transform-function tag.
    pub fn transform_function(&self) -> (r: TransformFn)
        ensures
            r == self.transform_fn,
    {
        self.transform_fn
    }

    /// The same primaries and white point with the provided
    /// [`TransformFn`]; the other two fields are unchanged.
    pub fn with_transform(&self, new_transform: TransformFn) -> (r: ColorSpace)
        ensures
            r == (ColorSpace {
                primaries: self.primaries,
                white_point: self.white_point,
                transform_fn: new_transform,
            }),
    {
        ColorSpace {
            primaries: self.primaries,
            white_point: self.white_point,
            transform_fn: new_transform,
        }
    }

    /// The same primaries and transform with the provided [`WhitePoint`];
    /// the other two fields are unchanged.
    pub fn with_whitepoint(&self, new_wp: WhitePoint) -> (r: ColorSpace)
        ensures
            r == (ColorSpace {
                primaries: self.primaries,
                white_point: new_wp,
                transform_fn: self.transform_fn,
            }),
    {
        ColorSpace {
            primaries: self.primaries,
            white_point: new_wp,
            transform_fn: self.transform_fn,
        }
    }

    /// The same white point and transform with the provided
    /// [`RgbPrimaries`]; the other two fields are unchanged.
    pub fn with_primaries(&self, primaries: RgbPrimaries) -> (r: ColorSpace)
        ensures
            r == (ColorSpace {
                primaries,
                white_point: self.white_point,
                transform_fn: self.transform_fn,
            }),
    {
        ColorSpace { primaries, white_point: self.white_point, transform_fn: self.transform_fn }
    }

    /// A CIE LAB color space over this space's white point.  LAB is
    /// reference-relative, so it is built on CIE XYZ primaries.
    pub fn to_cie_lab(&self) -> (r: ColorSpace)
        ensures
            r == (ColorSpace {
                primaries: RgbPrimaries::CieXyz,
                white_point: self.white_point,
                transform_fn: TransformFn::CieLab,
            }),
    {
        ColorSpace {
            primaries: RgbPrimaries::CieXyz,
            white_point: self.white_point,
            transform_fn: TransformFn::CieLab,
        }
    }

    /// A CIE xyY color space over this space's white point.
    pub fn to_cie_xyy(&self) -> (r: ColorSpace)
        ensures
            r == (ColorSpace {
                primaries: RgbPrimaries::CieXyz,
                white_point: self.white_point,
                transform_fn: TransformFn::CieXyY,
            }),
    {
        ColorSpace {
            primaries: RgbPrimaries::CieXyz,
            white_point: self.white_point,
            transform_fn: TransformFn::CieXyY,
        }
    }

    /// A CIE LCh color space over this space's white point.
    pub fn to_cie_lch(&self) -> (r: ColorSpace)
        ensures
            r == (ColorSpace {
                primaries: RgbPrimaries::CieXyz,
                white_point: self.white_point,
                transform_fn: TransformFn::CieLch,
            }),
    {
        ColorSpace {
            primaries: RgbPrimaries::CieXyz,
            white_point: self.white_point,
            transform_fn: TransformFn::CieLch,
        }
    }
}

/// A 3-component color coordinate in a [`ColorSpace`].
#[derive(Debug, Copy, Clone, PartialEq, Eq, Hash, Structural)]
pub struct Color {
    pub value: Vec3,
    pub space: ColorSpace,
}

impl Color {
    /// A color from its three fixed-point coordinates and its space.
    pub fn new(x: i64, y: i64, z: i64, space: ColorSpace) -> (r: Color)
        ensures
            r == (Color { value: Vec3 { x, y, z }, space }),
    {
        Color { value: Vec3 { x, y, z }, space }
    }

    /// The space the coordinate lives in.
    pub fn space(&self) -> (r: ColorSpace)
        ensures
            r == self.space,
    {
        self.space
    }

    /// A color in encoded sRGB; the same as `Color::new` with the encoded
    /// sRGB space.
    pub fn srgb(x: i64, y: i64, z: i64) -> (r: Color)
        ensures
            r == (Color {
                value: Vec3 { x, y, z },
                space: ColorSpace {
                    primaries: RgbPrimaries::Bt709,
                    white_point: WhitePoint::D65,
                    transform_fn: TransformFn::Srgb,
                },
            }),
    {
        Color {
            value: Vec3 { x, y, z },
            space: ColorSpace {
                primaries: RgbPrimaries::Bt709,
                white_point: WhitePoint::D65,
                transform_fn: TransformFn::Srgb,
            },
        }
    }

    /// The color converted into the provided space, by the conversion
    /// plan between the two spaces.  Both transform tags must be `NONE`
    /// or implemented.
    pub fn to(&self, space: ColorSpace) -> (r: Color)
        requires
            self.space.transform_fn == TransformFn::NONE
                || self.space.transform_fn.is_implemented(),
            space.transform_fn == TransformFn::NONE || space.transform_fn.is_implemented(),
        ensures
            r == (Color {
                value: sp_conversion_apply(sp_conversion_new(self.space, space), self.value),
                space,
            }),
    {
        let conversion: ColorConversion = ColorConversion::new(self.space, space);
        let new_value: Vec3 = conversion.convert(self.value);
        Color { value: new_value, space }
    }

    /// The color with only its non-linear transform stripped, keeping
    /// primaries and white point; unchanged when already linear.
    pub fn to_linear(&self) -> (r: Color)
        requires
            self.space.transform_fn == TransformFn::NONE
                || self.space.transform_fn.is_implemented(),
        ensures
            r == if self.space.spec_is_linear() {
                *self
            } else {
                Color {
                    value: sp_color_transform_apply(
                        ColorTransform { src: self.space.transform_fn, dst: TransformFn::NONE },
                        self.value,
                        self.space.white_point,
                    ),
                    space: self.space.spec_as_linear(),
                }
            },
    {
        if self.space.is_linear() {
            *self
        } else {
            let transform: Option<ColorTransform> = ColorTransform::new(
                self.space.transform_function(),
                TransformFn::NONE,
            );
            match transform {
                Some(t) => {
                    let new_value: Vec3 = t.apply(self.value, self.space.white_point());
                    Color { value: new_value, space: self.space.as_linear() }
                },
                None => {
                    proof {
                        assert(false);
                    }
                    *self
                },
            }
        }
    }
}

} // verus!
