use kolor::conversion::ColorConversion;
use kolor::conversion::derived_conversion_matrix;
use kolor::matrices::const_conversion_matrix;
use kolor::spaces::all_color_spaces;
use kolor::vecmat::Mat3;
use kolor::vecmat::Vec3;

fn fx(v: f64) -> i64 {
    (v * 4294967296.0).round() as i64
}

fn fl(v: i64) -> f64 {
    v as f64 / 4294967296.0
}

fn mat_max_diff(a: Mat3, b: Mat3) -> f64 {
    let entries = [
        (a.m00, b.m00),
        (a.m01, b.m01),
        (a.m02, b.m02),
        (a.m10, b.m10),
        (a.m11, b.m11),
        (a.m12, b.m12),
        (a.m20, b.m20),
        (a.m21, b.m21),
        (a.m22, b.m22),
    ];
    entries
        .iter()
        .map(|(x, y)| (fl(*x) - fl(*y)).abs())
        .fold(0.0, f64::max)
}

// for all linear built-in pairs with a precomputed matrix, the on-demand
// derivation matches the precomputed matrix within 1e-4 per component
#[test]
fn table_matches_derivation() {
    let spaces = all_color_spaces();
    let mut checked: u32 = 0;
    for src in spaces.iter() {
        for dst in spaces.iter() {
            if !src.is_linear() || !dst.is_linear() {
                continue;
            }
            if src.primaries() == dst.primaries() && src.white_point() == dst.white_point() {
                continue;
            }
            if let Some(table) = const_conversion_matrix(
                src.primaries(),
                src.white_point(),
                dst.primaries(),
                dst.white_point(),
            ) {
                let derived = derived_conversion_matrix(*src, *dst);
                let diff = mat_max_diff(table, derived);
                assert!(
                    diff <= 1e-4,
                    "{:?} -> {:?} differs by {}",
                    src,
                    dst,
                    diff
                );
                checked += 1;
            }
        }
    }
    // the bundled table covers the classic working-space pairs
    assert!(checked >= 20, "only {} pairs had table entries", checked);
}

// ColorConversion::new(S, S).apply(v) == v for every built-in S: exactly
// for linear spaces, within a small tolerance for non-linear ones (their
// identity plan is inverse-then-forward)
#[test]
fn identity_conversion_all_builtins() {
    let v = Vec3::new(fx(0.35), fx(0.2), fx(0.8));
    for s in all_color_spaces().iter() {
        let conv = ColorConversion::new(*s, *s);
        let result = conv.convert(v);
        if s.is_linear() {
            assert_eq!(result, v, "identity not exact for {:?}", s);
        } else {
            let diff = (fl(result.x) - fl(v.x))
                .abs()
                .max((fl(result.y) - fl(v.y)).abs())
                .max((fl(result.z) - fl(v.z)).abs());
            assert!(diff <= 1e-3, "identity off by {} for {:?}", diff, s);
        }
    }
}

#[test]
fn identity_conversion_has_no_stages_for_linear() {
    for s in all_color_spaces().iter() {
        if !s.is_linear() {
            continue;
        }
        let conv = ColorConversion::new(*s, *s);
        assert!(conv.is_linear());
        assert_eq!(conv.src_transform(), kolor::color::TransformFn::NONE);
        assert_eq!(conv.dst_transform(), kolor::color::TransformFn::NONE);
        assert_eq!(conv.linear_part().matrix(), Mat3::identity());
    }
}

#[test]
fn conversion_accessors() {
    let conv = ColorConversion::new(kolor::spaces::encoded_srgb(), kolor::spaces::aces_cg());
    assert_eq!(conv.src_space(), kolor::spaces::encoded_srgb());
    assert_eq!(conv.dst_space(), kolor::spaces::aces_cg());
    assert_eq!(conv.src_transform(), kolor::color::TransformFn::Srgb);
    assert_eq!(conv.dst_transform(), kolor::color::TransformFn::NONE);
    assert!(!conv.is_linear());
    let lin = conv.linear_part();
    assert_eq!(lin.input_space(), kolor::spaces::linear_srgb());
    assert_eq!(lin.output_space(), kolor::spaces::aces_cg());
}
