use kolor::color::TransformFn;
use kolor::color::WhitePoint;
use kolor::conversion::ColorConversion;
use kolor::spaces;
use kolor::transform::apply_forward;
use kolor::transform::apply_inverse;
use kolor::vecmat::Vec3;

fn fx(v: f64) -> i64 {
    (v * 4294967296.0).round() as i64
}

fn fl(v: i64) -> f64 {
    v as f64 / 4294967296.0
}

fn vec3(x: f64, y: f64, z: f64) -> Vec3 {
    Vec3::new(fx(x), fx(y), fx(z))
}

fn max_diff(a: Vec3, b: Vec3) -> f64 {
    let dx = (fl(a.x) - fl(b.x)).abs();
    let dy = (fl(a.y) - fl(b.y)).abs();
    let dz = (fl(a.z) - fl(b.z)).abs();
    dx.max(dy).max(dz)
}

// inverse(forward(v)) and forward(inverse(forward(v))) stay within 1e-3
// of their arguments, on a representative non-singular sample
fn check_roundtrip(tag: TransformFn, v: Vec3, wp: WhitePoint, tol: f64) {
    let encoded = apply_forward(tag, v, wp);
    let decoded = apply_inverse(tag, encoded, wp);
    assert!(
        max_diff(decoded, v) <= tol,
        "inverse(forward(v)) for {:?}: {:?} vs {:?}",
        tag,
        decoded,
        v
    );
    let re_encoded = apply_forward(tag, decoded, wp);
    assert!(
        max_diff(re_encoded, encoded) <= tol,
        "forward(inverse(w)) for {:?}: {:?} vs {:?}",
        tag,
        re_encoded,
        encoded
    );
}

#[test]
fn roundtrip_srgb() {
    check_roundtrip(TransformFn::Srgb, vec3(0.35, 0.2, 0.8), WhitePoint::D65, 1e-3);
}

#[test]
fn roundtrip_bt601() {
    check_roundtrip(TransformFn::Bt601, vec3(0.35, 0.2, 0.8), WhitePoint::D65, 1e-3);
}

#[test]
fn roundtrip_ok_lab() {
    check_roundtrip(TransformFn::OkLab, vec3(0.35, 0.2, 0.8), WhitePoint::D65, 1e-3);
}

#[test]
fn roundtrip_ok_lch() {
    check_roundtrip(TransformFn::OkLch, vec3(0.35, 0.2, 0.8), WhitePoint::D65, 1e-3);
}

#[test]
fn roundtrip_cie_xyy() {
    check_roundtrip(TransformFn::CieXyY, vec3(0.35, 0.2, 0.8), WhitePoint::D65, 1e-3);
}

#[test]
fn roundtrip_cie_lab() {
    check_roundtrip(TransformFn::CieLab, vec3(0.35, 0.2, 0.8), WhitePoint::D65, 1e-3);
}

#[test]
fn roundtrip_cie_lch() {
    check_roundtrip(TransformFn::CieLch, vec3(0.35, 0.2, 0.8), WhitePoint::D65, 1e-3);
}

#[test]
fn roundtrip_cie_1960_ucs() {
    check_roundtrip(TransformFn::Cie1960Ucs, vec3(0.35, 0.2, 0.8), WhitePoint::D65, 1e-3);
}

#[test]
fn roundtrip_cie_1960_ucs_uvv() {
    check_roundtrip(TransformFn::Cie1960UcsUvV, vec3(0.35, 0.2, 0.8), WhitePoint::D65, 1e-3);
}

#[test]
fn roundtrip_hsl() {
    check_roundtrip(TransformFn::Hsl, vec3(0.35, 0.2, 0.8), WhitePoint::D65, 1e-3);
}

#[test]
fn roundtrip_hsv() {
    check_roundtrip(TransformFn::Hsv, vec3(0.35, 0.2, 0.8), WhitePoint::D65, 1e-3);
}

#[test]
fn roundtrip_hsi() {
    check_roundtrip(TransformFn::Hsi, vec3(0.35, 0.2, 0.8), WhitePoint::D65, 1e-3);
}

#[test]
fn roundtrip_ict_cp_pq() {
    check_roundtrip(TransformFn::IctCpPq, vec3(0.35, 0.2, 0.8), WhitePoint::D65, 1e-3);
}

#[test]
fn roundtrip_ict_cp_hlg() {
    check_roundtrip(TransformFn::IctCpHlg, vec3(0.35, 0.2, 0.8), WhitePoint::D65, 1e-3);
}

#[test]
fn roundtrip_cie_1976_luv() {
    check_roundtrip(TransformFn::Cie1976Luv, vec3(0.35, 0.2, 0.8), WhitePoint::D65, 1e-3);
}

#[test]
fn roundtrip_pq() {
    check_roundtrip(TransformFn::Pq, vec3(0.35, 0.2, 0.8), WhitePoint::D65, 1e-3);
}

#[test]
fn ictcp_pq_inverse() {
    let to_conv = ColorConversion::new(spaces::linear_srgb(), spaces::ict_cp_pq());
    let from_conv = ColorConversion::new(spaces::ict_cp_pq(), spaces::linear_srgb());
    let value: i64 = fx(0.5);

    let pq_val = kolor::transform::st_2084_pq_eotf_inverse_float(value);
    let inverse_val = kolor::transform::st_2084_pq_eotf_float(pq_val);
    assert!(
        (fl(value) - fl(inverse_val)).abs() < 0.001,
        "pq_val {:?} inverse {:?}",
        fl(value),
        fl(inverse_val)
    );
    // validate inverse matrices
    let value = vec3(0.5, 0.5, 0.5);
    let result = kolor::transform::ict_cp_pq_to_rgb(
        kolor::transform::rgb_to_ict_cp_pq(value, WhitePoint::D65),
        WhitePoint::D65,
    );
    assert!(
        max_diff(value, result) < 0.002,
        "{:?} != {:?}",
        value,
        result
    );

    let allowed_error = 0.002;
    let value = vec3(0.5, 0.5, 0.5);
    let result = from_conv.convert(to_conv.convert(value));
    assert!(
        max_diff(value, result) < allowed_error,
        "{:?} != {:?}",
        value,
        result
    );

    let value = vec3(1.0, 1.0, 1.0);
    let result = from_conv.convert(to_conv.convert(value));
    assert!(
        max_diff(value, result) < allowed_error,
        "{:?} != {:?}",
        value,
        result
    );
}

// B -> A applied after A -> B returns within 2e-3, for built-in pairs
// whose transforms are all implemented
fn check_pair(a: kolor::color::ColorSpace, b: kolor::color::ColorSpace, v: Vec3, tol: f64) {
    let there = ColorConversion::new(a, b);
    let back = ColorConversion::new(b, a);
    let result = back.convert(there.convert(v));
    assert!(
        max_diff(result, v) <= tol,
        "{:?} -> {:?}: {:?} vs {:?}",
        a,
        b,
        result,
        v
    );
}

#[test]
fn invertibility_linear_pairs() {
    let v = vec3(0.35, 0.2, 0.8);
    check_pair(spaces::linear_srgb(), spaces::aces_cg(), v, 2e-3);
    check_pair(spaces::linear_srgb(), spaces::aces_2065_1(), v, 2e-3);
    check_pair(spaces::bt_2020(), spaces::cie_rgb(), v, 2e-3);
    check_pair(spaces::display_p3(), spaces::adobe_1998(), v, 2e-3);
    check_pair(spaces::pro_photo(), spaces::apple(), v, 2e-3);
}

#[test]
fn invertibility_nonlinear_pairs() {
    let v = vec3(0.35, 0.2, 0.8);
    check_pair(spaces::linear_srgb(), spaces::ok_lab(), v, 2e-3);
    check_pair(spaces::linear_srgb(), spaces::encoded_bt_2020(), v, 2e-3);
    check_pair(spaces::encoded_srgb(), spaces::aces_cg(), v, 2e-3);
    check_pair(spaces::bt_2020(), spaces::ict_cp_pq(), v, 2e-3);
    check_pair(spaces::cie_xyz(), spaces::ok_lch(), v, 2e-3);
}

#[test]
fn invertibility_inverted_plan() {
    let v = vec3(0.35, 0.2, 0.8);
    let there = ColorConversion::new(spaces::encoded_srgb(), spaces::ok_lab());
    let back = there.invert();
    let result = back.convert(there.convert(v));
    assert!(max_diff(result, v) <= 2e-3);
}
