use kolor::cat::LmsConeSpace;
use kolor::color::ColorSpace;
use kolor::color::RgbPrimaries;
use kolor::color::TransformFn;
use kolor::color::WhitePoint;
use kolor::elementary::fx_cbrt;
use kolor::elementary::fx_pow;
use kolor::elementary::fx_sqrt;
use kolor::transform::ColorTransform;
use kolor::transform::cie_1964_uvw_to_xyz;
use kolor::transform::rgb_to_hsl;
use kolor::transform::xyz_to_cie_1964_uvw;
use kolor::transform::xyz_to_xyy;
use kolor::vecmat::Vec3;

fn fx(v: f64) -> i64 {
    (v * 4294967296.0).round() as i64
}

fn fl(v: i64) -> f64 {
    v as f64 / 4294967296.0
}

fn vec3(x: f64, y: f64, z: f64) -> Vec3 {
    Vec3::new(fx(x), fx(y), fx(z))
}

#[test]
fn unimplemented_transform_is_refused() {
    // the CIE 1964 UVW pair is intentionally unimplemented: asking for a
    // stage that involves it fails explicitly
    assert!(ColorTransform::new(TransformFn::Cie1964Uvw, TransformFn::NONE).is_none());
    assert!(ColorTransform::new(TransformFn::NONE, TransformFn::Cie1964Uvw).is_none());
    assert!(ColorTransform::new(TransformFn::Cie1964Uvw, TransformFn::Srgb).is_none());
    assert!(xyz_to_cie_1964_uvw(vec3(0.3, 0.4, 0.5), WhitePoint::D65).is_none());
    assert!(cie_1964_uvw_to_xyz(vec3(0.3, 0.4, 0.5), WhitePoint::D65).is_none());
}

#[test]
fn empty_transform_pair_is_refused() {
    assert!(ColorTransform::new(TransformFn::NONE, TransformFn::NONE).is_none());
}

#[test]
fn every_implemented_tag_builds_a_stage() {
    let tags = [
        TransformFn::Srgb,
        TransformFn::OkLab,
        TransformFn::OkLch,
        TransformFn::CieXyY,
        TransformFn::CieLab,
        TransformFn::CieLch,
        TransformFn::Cie1960Ucs,
        TransformFn::Cie1960UcsUvV,
        TransformFn::Cie1976Luv,
        TransformFn::Hsl,
        TransformFn::Hsv,
        TransformFn::Hsi,
        TransformFn::IctCpPq,
        TransformFn::IctCpHlg,
        TransformFn::Bt601,
        TransformFn::Pq,
    ];
    for tag in tags {
        assert!(tag.is_implemented());
        assert!(ColorTransform::new(tag, TransformFn::NONE).is_some());
        assert!(ColorTransform::new(TransformFn::NONE, tag).is_some());
    }
    assert!(!TransformFn::NONE.is_implemented());
    assert!(!TransformFn::Cie1964Uvw.is_implemented());
}

#[test]
fn with_functions_keep_other_fields() {
    let s = ColorSpace::new(RgbPrimaries::Bt2020, WhitePoint::D60, TransformFn::Pq);
    let t = s.with_transform(TransformFn::NONE);
    assert_eq!(t.primaries(), RgbPrimaries::Bt2020);
    assert_eq!(t.white_point(), WhitePoint::D60);
    assert_eq!(t.transform_function(), TransformFn::NONE);
    let p = s.with_primaries(RgbPrimaries::P3);
    assert_eq!(p.primaries(), RgbPrimaries::P3);
    assert_eq!(p.white_point(), WhitePoint::D60);
    assert_eq!(p.transform_function(), TransformFn::Pq);
    let w = s.with_whitepoint(WhitePoint::E);
    assert_eq!(w.primaries(), RgbPrimaries::Bt2020);
    assert_eq!(w.white_point(), WhitePoint::E);
    assert_eq!(w.transform_function(), TransformFn::Pq);
    assert!(!s.is_linear());
    assert!(s.as_linear().is_linear());
    assert_eq!(s.as_linear().primaries(), RgbPrimaries::Bt2020);
}

#[test]
fn reference_relative_constructors() {
    let s = ColorSpace::new(RgbPrimaries::Bt709, WhitePoint::D50, TransformFn::NONE);
    let lab = s.to_cie_lab();
    assert_eq!(lab.primaries(), RgbPrimaries::CieXyz);
    assert_eq!(lab.white_point(), WhitePoint::D50);
    assert_eq!(lab.transform_function(), TransformFn::CieLab);
    let xyy = s.to_cie_xyy();
    assert_eq!(xyy.transform_function(), TransformFn::CieXyY);
    assert_eq!(xyy.white_point(), WhitePoint::D50);
    let lch = s.to_cie_lch();
    assert_eq!(lch.transform_function(), TransformFn::CieLch);
}

#[test]
fn default_cone_space_is_sharp() {
    assert_eq!(LmsConeSpace::default(), LmsConeSpace::Sharp);
}

#[test]
fn zero_chroma_hue_is_zero() {
    // a gray input sits on the saturation-undefined boundary: the hue
    // formula picks 0 rather than failing
    let hsl = rgb_to_hsl(vec3(0.5, 0.5, 0.5), WhitePoint::D65);
    assert_eq!(hsl.x, 0);
    assert_eq!(hsl.y, 0);
    assert!((fl(hsl.z) - 0.5).abs() < 1e-9);
}

#[test]
fn degenerate_chromaticity_divides_to_zero() {
    // a zero tristimulus sum yields zero chromaticity, not NaN
    let r = xyz_to_xyy(vec3(0.0, 0.0, 0.0), WhitePoint::D65);
    assert_eq!(r, Vec3::new(0, 0, 0));
}

#[test]
fn exact_root_values() {
    assert_eq!(fx_sqrt(fx(4.0)), fx(2.0));
    assert_eq!(fx_sqrt(fx(1.0)), fx(1.0));
    assert_eq!(fx_cbrt(fx(8.0)), fx(2.0));
    assert_eq!(fx_cbrt(fx(-8.0)), fx(-2.0));
    assert_eq!(fx_sqrt(-5), 0);
}

#[test]
fn power_function_values() {
    assert!((fl(fx_pow(fx(2.0), fx(10.0))) - 1024.0).abs() < 1e-4);
    assert!((fl(fx_pow(fx(0.35), fx(1.0 / 2.4))) - 0.35f64.powf(1.0 / 2.4)).abs() < 1e-6);
    assert_eq!(fx_pow(0, fx(2.0)), 0);
    assert_eq!(fx_pow(fx(-1.5), fx(2.0)), 0);
}

#[test]
fn gamma_formula_exact_linear_segment() {
    // below the cutoff the sRGB OETF is exactly the 12.92 slope in
    // fixed point
    let c = fx(0.002);
    let r = kolor::transform::srgb_oetf(Vec3::new(c, c, c), WhitePoint::D65);
    let expected = (c as i128 * kolor::transform::SRGB_SLOPE as i128 / 4294967296) as i64;
    assert_eq!(r.x, expected);
    assert_eq!(r.y, expected);
    assert_eq!(r.z, expected);
}
