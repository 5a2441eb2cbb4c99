use kolor::color::Color;
use kolor::color::ColorSpace;
use kolor::color::RgbPrimaries;
use kolor::color::TransformFn;
use kolor::color::WhitePoint;
use kolor::conversion::ColorConversion;
use kolor::conversion::LinearColorConversion;
use kolor::spaces;
use kolor::transform::ColorTransform;
use kolor::vecmat::Vec3;

fn fx(v: f64) -> i64 {
    (v * 4294967296.0).round() as i64
}

fn fl(v: i64) -> f64 {
    v as f64 / 4294967296.0
}

fn vec3(x: f64, y: f64, z: f64) -> Vec3 {
    Vec3::new(fx(x), fx(y), fx(z))
}

fn abs_diff_le(v: Vec3, x: f64, y: f64, z: f64, tol: f64) -> bool {
    (fl(v.x) - x).abs() <= tol && (fl(v.y) - y).abs() <= tol && (fl(v.z) - z).abs() <= tol
}

#[test]
fn linear_srgb_to_aces_cg() {
    let conversion = LinearColorConversion::new(spaces::linear_srgb(), spaces::aces_cg());
    let mut result = vec3(0.35, 0.2, 0.8);
    conversion.apply(&mut result);
    assert!(abs_diff_le(result, 0.32276854, 0.21838512, 0.72592676, 0.001));
}

#[test]
fn color_linear_srgb_to_aces_cg() {
    let conversion = ColorConversion::new(spaces::linear_srgb(), spaces::aces_cg());
    let mut result = vec3(0.35, 0.2, 0.8);
    conversion.apply(&mut result);
    assert!(abs_diff_le(result, 0.32276854, 0.21838512, 0.72592676, 0.001));
}

#[test]
fn linear_srgb_to_aces_2065_1() {
    let conversion = ColorConversion::new(spaces::linear_srgb(), spaces::aces_2065_1());
    let result = conversion.convert(vec3(0.35, 0.2, 0.8));
    assert!(abs_diff_le(result, 0.3741492, 0.27154857, 0.7261116, 0.001));
}

#[test]
fn color_linear_srgb_to_aces_2065_1() {
    let conversion = ColorConversion::new(spaces::linear_srgb(), spaces::aces_2065_1());
    let mut result = vec3(0.35, 0.2, 0.8);
    conversion.apply(&mut result);
    assert!(abs_diff_le(result, 0.3741492, 0.27154857, 0.7261116, 0.001));
}

#[test]
fn linear_srgb_to_srgb() {
    let transform = ColorTransform::new(TransformFn::NONE, TransformFn::Srgb).unwrap();
    let test = vec3(0.35, 0.1, 0.8);
    let result = transform.apply(test, WhitePoint::D65);
    assert!(abs_diff_le(result, 0.6262097, 0.34919018, 0.9063317, 0.001));
}

#[test]
fn color_linear_srgb_to_srgb() {
    let transform = ColorTransform::new(TransformFn::NONE, TransformFn::Srgb).unwrap();
    let mut result = vec3(0.35, 0.1, 0.8);
    result = transform.apply(result, WhitePoint::D65);
    assert!(abs_diff_le(result, 0.6262097, 0.34919018, 0.9063317, 0.001));
}

#[test]
fn aces_cg_to_srgb() {
    let conversion = ColorConversion::new(spaces::aces_cg(), spaces::encoded_srgb());
    let result = conversion.convert(vec3(0.35, 0.1, 0.8));
    assert!(abs_diff_le(result, 0.713855624199, 0.271821975708, 0.955197274685, 0.01));
}

#[test]
fn aces2065_1_to_xyz_test() {
    let rgb_to_xyz = kolor::xyz::rgb_to_xyz(
        spaces::aces_2065_1().primaries().values(),
        spaces::aces_2065_1().white_point().values(),
    );
    let roundtrip = rgb_to_xyz.inverse().mul_mat(&rgb_to_xyz);
    println!("{:?}\n{:?}", rgb_to_xyz, roundtrip);
}

#[test]
fn color_aces2065_1_to_xyz_test() {
    let rgb_to_xyz = kolor::xyz::rgb_to_xyz(
        spaces::aces_2065_1().primaries().values(),
        spaces::aces_2065_1().white_point().values(),
    );
    let roundtrip = rgb_to_xyz.inverse().mul_mat(&rgb_to_xyz);
    println!("{:?}\n{:?}", rgb_to_xyz, roundtrip);
    // the round trip of the derived matrix with its inverse stays close
    // to the identity
    assert!((fl(roundtrip.m00) - 1.0).abs() < 1e-4);
    assert!((fl(roundtrip.m11) - 1.0).abs() < 1e-4);
    assert!((fl(roundtrip.m22) - 1.0).abs() < 1e-4);
}

#[test]
fn rgb_to_xyz_test() {
    println!(
        "{:?}",
        kolor::xyz::rgb_to_xyz(
            spaces::linear_srgb().primaries().values(),
            spaces::linear_srgb().white_point().values(),
        )
    );
    println!(
        "{:?}",
        kolor::xyz::xyz_to_rgb(
            spaces::linear_srgb().primaries().values(),
            spaces::linear_srgb().white_point().values(),
        )
    );
}

#[test]
fn color_rgb_to_xyz_test() {
    let m = kolor::xyz::rgb_to_xyz(
        spaces::linear_srgb().primaries().values(),
        spaces::linear_srgb().white_point().values(),
    );
    println!("{:?}", m);
    // the standard sRGB-to-XYZ matrix, to a loose tolerance
    assert!((fl(m.m00) - 0.4124564).abs() < 1e-4);
    assert!((fl(m.m11) - 0.7151522).abs() < 1e-4);
    assert!((fl(m.m22) - 0.9503041).abs() < 1e-4);
}

#[test]
fn cat_test() {
    println!(
        "{:?}",
        kolor::cat::chromatic_adaptation_transform(
            WhitePoint::D65.values(),
            WhitePoint::E.values(),
            kolor::cat::LmsConeSpace::VonKries,
        )
    );
}

#[test]
fn color_cat_test() {
    let m = kolor::cat::chromatic_adaptation_transform(
        WhitePoint::D65.values(),
        WhitePoint::D65.values(),
        kolor::cat::LmsConeSpace::VonKries,
    );
    println!("{:?}", m);
    // adapting a white point to itself is the identity within tolerance
    assert!((fl(m.m00) - 1.0).abs() < 1e-6);
    assert!((fl(m.m11) - 1.0).abs() < 1e-6);
    assert!((fl(m.m22) - 1.0).abs() < 1e-6);
    assert!(fl(m.m01).abs() < 1e-6 && fl(m.m02).abs() < 1e-6);
}

#[test]
fn oklab_test() {
    let xyz = Color::new(
        fx(1.0),
        0,
        0,
        ColorSpace::new(RgbPrimaries::CieXyz, WhitePoint::D65, TransformFn::NONE),
    );
    let oklab = xyz.to(spaces::ok_lab());
    println!(
        "conversion {:?}",
        ColorConversion::new(xyz.space(), oklab.space())
    );
    println!("{:?} - {:?}", xyz, oklab);
}

#[test]
fn color_oklab_test() {
    let xyz = Color::new(
        fx(1.0),
        0,
        0,
        ColorSpace::new(RgbPrimaries::CieXyz, WhitePoint::D65, TransformFn::NONE),
    );
    let oklab = xyz.to(spaces::ok_lab());
    let back = oklab.to(xyz.space());
    println!("{:?} - {:?} - {:?}", xyz, oklab, back);
    // CIE XYZ (1, 0, 0) through Oklab and back returns within 1e-3
    assert!(abs_diff_le(back.value, 1.0, 0.0, 0.0, 0.001));
}

#[test]
fn srgb_to_cie_rgb_follows_table() {
    // BT.709/D65 to CIE RGB/E goes through the bundled matrix, which
    // agrees with the Sharp-cone derivation
    let conversion = ColorConversion::new(spaces::linear_srgb(), spaces::cie_rgb());
    let result = conversion.convert(vec3(0.35, 0.2, 0.8));
    assert!(abs_diff_le(result, 0.289634, 0.267459, 0.731483, 0.001));
}

#[test]
fn scenario_srgb_oetf() {
    // encoded-sRGB transform of linear (0.35, 0.1, 0.8)
    let r = kolor::transform::srgb_oetf(vec3(0.35, 0.1, 0.8), WhitePoint::D65);
    assert!(abs_diff_le(r, 0.62621, 0.34919, 0.90633, 0.001));
}

#[test]
fn scenario_color_to_linear() {
    let c = Color::srgb(fx(0.62621), fx(0.34919), fx(0.90633));
    let lin = c.to_linear();
    assert_eq!(lin.space(), spaces::linear_srgb());
    assert!(abs_diff_le(lin.value, 0.35, 0.1, 0.8, 0.001));
}

#[test]
fn scenario_to_keeps_space() {
    let c = Color::new(fx(0.35), fx(0.2), fx(0.8), spaces::linear_srgb());
    let out = c.to(spaces::bt_2020());
    assert_eq!(out.space(), spaces::bt_2020());
}
