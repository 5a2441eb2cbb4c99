//! Cross-checks of the fixed-point transforms against double-precision
//! evaluations of the same formulas.

use kolor::color::WhitePoint;
use kolor::transform as t;
use kolor::vecmat::Vec3;

fn fx(v: f64) -> i64 {
    (v * 4294967296.0).round() as i64
}

fn fl(v: i64) -> f64 {
    v as f64 / 4294967296.0
}

fn vec3(x: f64, y: f64, z: f64) -> Vec3 {
    Vec3::new(fx(x), fx(y), fx(z))
}

fn close(got: Vec3, want: [f64; 3], tol: f64, what: &str) {
    let g = [fl(got.x), fl(got.y), fl(got.z)];
    for i in 0..3 {
        assert!(
            (g[i] - want[i]).abs() <= tol,
            "{}: component {}: {} vs {}",
            what,
            i,
            g[i],
            want[i]
        );
    }
}

fn matvec(m: [[f64; 3]; 3], v: [f64; 3]) -> [f64; 3] {
    [
        m[0][0] * v[0] + m[0][1] * v[1] + m[0][2] * v[2],
        m[1][0] * v[0] + m[1][1] * v[1] + m[1][2] * v[2],
        m[2][0] * v[0] + m[2][1] * v[1] + m[2][2] * v[2],
    ]
}

fn inv3(m: [[f64; 3]; 3]) -> [[f64; 3]; 3] {
    let det = m[0][0] * (m[1][1] * m[2][2] - m[1][2] * m[2][1])
        - m[0][1] * (m[1][0] * m[2][2] - m[1][2] * m[2][0])
        + m[0][2] * (m[1][0] * m[2][1] - m[1][1] * m[2][0]);
    let c = [
        [
            m[1][1] * m[2][2] - m[1][2] * m[2][1],
            m[0][2] * m[2][1] - m[0][1] * m[2][2],
            m[0][1] * m[1][2] - m[0][2] * m[1][1],
        ],
        [
            m[1][2] * m[2][0] - m[1][0] * m[2][2],
            m[0][0] * m[2][2] - m[0][2] * m[2][0],
            m[0][2] * m[1][0] - m[0][0] * m[1][2],
        ],
        [
            m[1][0] * m[2][1] - m[1][1] * m[2][0],
            m[0][1] * m[2][0] - m[0][0] * m[2][1],
            m[0][0] * m[1][1] - m[0][1] * m[1][0],
        ],
    ];
    let mut r = [[0.0; 3]; 3];
    for i in 0..3 {
        for j in 0..3 {
            r[i][j] = c[i][j] / det;
        }
    }
    r
}

const D65: [f64; 3] = [0.95047, 1.0, 1.08883];
const V: [f64; 3] = [0.35, 0.2, 0.8];

#[test]
fn reference_gamma_curves() {
    let srgb = |c: f64| {
        if c < 0.0031308 {
            12.92 * c
        } else {
            1.055 * c.powf(1.0 / 2.4) - 0.055
        }
    };
    let srgb_inv = |c: f64| {
        if c < 0.04045 {
            c / 12.92
        } else {
            ((c + 0.055) / 1.055).powf(2.4)
        }
    };
    let bt601 = |c: f64| {
        if c < 0.0181 {
            4.5 * c
        } else {
            1.0993 * c.powf(0.45) - 0.0993
        }
    };
    let bt601_inv = |c: f64| {
        if c < 0.08145 {
            c / 4.5
        } else {
            ((c + 0.0993) / 1.0993).powf(1.0 / 0.45)
        }
    };
    let v = vec3(V[0], V[1], V[2]);
    close(
        t::srgb_oetf(v, WhitePoint::D65),
        [srgb(V[0]), srgb(V[1]), srgb(V[2])],
        1e-6,
        "srgb_oetf",
    );
    close(
        t::srgb_eotf(v, WhitePoint::D65),
        [srgb_inv(V[0]), srgb_inv(V[1]), srgb_inv(V[2])],
        1e-6,
        "srgb_eotf",
    );
    close(
        t::bt601_oetf(v, WhitePoint::D65),
        [bt601(V[0]), bt601(V[1]), bt601(V[2])],
        1e-6,
        "bt601_oetf",
    );
    close(
        t::bt601_oetf_inverse(v, WhitePoint::D65),
        [bt601_inv(V[0]), bt601_inv(V[1]), bt601_inv(V[2])],
        1e-6,
        "bt601_oetf_inverse",
    );
}

#[test]
fn reference_xyy_ucs_family() {
    let s = V[0] + V[1] + V[2];
    close(
        t::xyz_to_xyy(vec3(V[0], V[1], V[2]), WhitePoint::D65),
        [V[0] / s, V[1] / s, V[1]],
        1e-7,
        "xyz_to_xyy",
    );
    let w = [V[0], V[1], V[2]];
    close(
        t::xyy_to_xyz(vec3(w[0], w[1], w[2]), WhitePoint::D65),
        [
            (w[2] / w[1]) * w[0],
            w[2],
            (w[2] / w[1]) * (1.0 - w[0] - w[1]),
        ],
        1e-7,
        "xyy_to_xyz",
    );
    let ucs = [
        (2.0 / 3.0) * V[0],
        V[1],
        0.5 * (-V[0] + 3.0 * V[1] + V[2]),
    ];
    close(
        t::xyz_to_cie_1960_ucs(vec3(V[0], V[1], V[2]), WhitePoint::D65),
        ucs,
        1e-7,
        "xyz_to_cie_1960_ucs",
    );
    close(
        t::cie_1960_ucs_to_xyz(vec3(ucs[0], ucs[1], ucs[2]), WhitePoint::D65),
        [
            1.5 * ucs[0],
            ucs[1],
            1.5 * ucs[0] - 3.0 * ucs[1] + 2.0 * ucs[2],
        ],
        1e-7,
        "cie_1960_ucs_to_xyz",
    );
    let su = ucs[0] + ucs[1] + ucs[2];
    let uvv = [ucs[0] / su, ucs[1] / su, ucs[1]];
    close(
        t::cie_1960_ucs_to_uvv(vec3(ucs[0], ucs[1], ucs[2]), WhitePoint::D65),
        uvv,
        1e-7,
        "cie_1960_ucs_to_uvv",
    );
    close(
        t::cie_1960_uvv_to_ucs(vec3(uvv[0], uvv[1], uvv[2]), WhitePoint::D65),
        [
            uvv[2] * (uvv[0] / uvv[1]),
            uvv[2],
            -uvv[2] * (uvv[0] + uvv[1] - 1.0) / uvv[1],
        ],
        1e-6,
        "cie_1960_uvv_to_ucs",
    );
    let d = 2.0 * uvv[0] - 8.0 * uvv[1] - 4.0;
    close(
        t::cie_1960_uvv_to_xyv(vec3(uvv[0], uvv[1], uvv[2]), WhitePoint::D65),
        [3.0 * uvv[0] / d, 2.0 * uvv[1] / d, uvv[2]],
        1e-6,
        "cie_1960_uvv_to_xyv",
    );
    let xyv = [0.31, 0.33, 0.2];
    let d2 = 12.0 * xyv[1] - 2.0 * xyv[0] + 3.0;
    close(
        t::cie_1960_xyv_to_uvv(vec3(xyv[0], xyv[1], xyv[2]), WhitePoint::D65),
        [4.0 * xyv[0] / d2, 6.0 * xyv[1] / d2, xyv[2]],
        1e-6,
        "cie_1960_xyv_to_uvv",
    );
}

#[test]
fn reference_cie_lab_lch() {
    let f = |c: f64| {
        if c > 0.008856 {
            c.cbrt()
        } else {
            c * 7.78703703704 + 0.13793103448
        }
    };
    let xr = f(V[0] / D65[0]);
    let yr = f(V[1] / D65[1]);
    let zr = f(V[2] / D65[2]);
    let lab = [116.0 * yr - 16.0, 500.0 * (xr - yr), 200.0 * (yr - zr)];
    close(
        t::xyz_to_cie_lab(vec3(V[0], V[1], V[2]), WhitePoint::D65),
        lab,
        1e-4,
        "xyz_to_cie_lab",
    );
    let h0 = lab[2].atan2(lab[1]);
    let h = if h0 > 0.0 {
        h0 / std::f64::consts::PI * 180.0
    } else {
        360.0 - h0.abs() / std::f64::consts::PI * 180.0
    };
    let chroma = (lab[1] * lab[1] + lab[2] * lab[2]).sqrt();
    close(
        t::cie_lab_to_cie_lch(vec3(lab[0], lab[1], lab[2])),
        [lab[0], chroma, h],
        1e-3,
        "cie_lab_to_cie_lch",
    );
    let angle = h / 360.0 * std::f64::consts::TAU;
    close(
        t::cie_lch_to_cie_lab(vec3(lab[0], chroma, h)),
        [lab[0], chroma * angle.cos(), chroma * angle.sin()],
        1e-3,
        "cie_lch_to_cie_lab",
    );
}

#[test]
fn reference_cie_luv() {
    let uv = |x: f64, y: f64, z: f64| {
        let d = x + 15.0 * y + 3.0 * z;
        (4.0 * x / d, 9.0 * y / d)
    };
    let (u, v) = uv(V[0], V[1], V[2]);
    let (ur, vr) = uv(D65[0], D65[1], D65[2]);
    let y0 = V[1] / 100.0;
    let y1 = if y0 > 0.008856 {
        y0.cbrt()
    } else {
        7.787 * y0 + 16.0 / 116.0
    };
    let l = 116.0 * y1 - 16.0;
    let luv = [l, 13.0 * l * (u - ur), 13.0 * l * (v - vr)];
    close(
        t::xyz_to_cie_1976_luv(vec3(V[0], V[1], V[2]), WhitePoint::D65),
        luv,
        1e-4,
        "xyz_to_cie_1976_luv",
    );
    close(
        t::cie_1976_luv_to_xyz(vec3(luv[0], luv[1], luv[2]), WhitePoint::D65),
        V,
        1e-4,
        "cie_1976_luv_to_xyz",
    );
}

const OKLAB_M1: [[f64; 3]; 3] = [
    [0.8189330101, 0.3618667424, -0.1288597137],
    [0.0329845436, 0.9293118715, 0.0361456387],
    [0.0482003018, 0.2643662691, 0.6338517070],
];
const OKLAB_M2: [[f64; 3]; 3] = [
    [0.2104542553, 0.7936177850, -0.0040720468],
    [1.9779984951, -2.4285922050, 0.4505937099],
    [0.0259040371, 0.7827717662, -0.8086757660],
];

#[test]
fn reference_oklab_oklch() {
    let lms = matvec(OKLAB_M1, V);
    let lms_c = [lms[0].cbrt(), lms[1].cbrt(), lms[2].cbrt()];
    let lab = matvec(OKLAB_M2, lms_c);
    close(
        t::xyz_to_ok_lab(vec3(V[0], V[1], V[2]), WhitePoint::D65),
        lab,
        1e-5,
        "xyz_to_ok_lab",
    );
    let lms2 = matvec(inv3(OKLAB_M2), lab);
    let cubed = [lms2[0].powi(3), lms2[1].powi(3), lms2[2].powi(3)];
    let back = matvec(inv3(OKLAB_M1), cubed);
    close(
        t::ok_lab_to_xyz(vec3(lab[0], lab[1], lab[2]), WhitePoint::D65),
        back,
        1e-5,
        "ok_lab_to_xyz",
    );
    let chroma = (lab[1] * lab[1] + lab[2] * lab[2]).sqrt();
    let hue = lab[2].atan2(lab[1]);
    close(
        t::xyz_to_ok_lch(vec3(V[0], V[1], V[2]), WhitePoint::D65),
        [lab[0], chroma, hue],
        1e-5,
        "xyz_to_ok_lch",
    );
    close(
        t::ok_lch_to_xyz(vec3(lab[0], chroma, hue), WhitePoint::D65),
        back,
        1e-4,
        "ok_lch_to_xyz",
    );
}

#[test]
fn reference_hsx() {
    let hue_chroma = |v: [f64; 3]| {
        let max = v[0].max(v[1]).max(v[2]);
        let min = v[0].min(v[1]).min(v[2]);
        let c = max - min;
        let h0 = if c == 0.0 {
            0.0
        } else if v[0] > v[1] && v[0] > v[2] {
            60.0 * (v[1] - v[2]) / c
        } else if v[1] > v[0] && v[1] > v[2] {
            60.0 * (2.0 + (v[2] - v[0]) / c)
        } else {
            60.0 * (4.0 + (v[0] - v[1]) / c)
        };
        (if h0 < 0.0 { 360.0 + h0 } else { h0 }, c, max, min)
    };
    let (h, c, max, min) = hue_chroma(V);
    let l = (max + min) / 2.0;
    let s_l = (max - l) / l.min(1.0 - l);
    close(
        t::rgb_to_hsl(vec3(V[0], V[1], V[2]), WhitePoint::D65),
        [h, s_l, l],
        1e-4,
        "rgb_to_hsl",
    );
    close(
        t::rgb_to_hsv(vec3(V[0], V[1], V[2]), WhitePoint::D65),
        [h, c / max, max],
        1e-4,
        "rgb_to_hsv",
    );
    let i = (V[0] + V[1] + V[2]) / 3.0;
    close(
        t::rgb_to_hsi(vec3(V[0], V[1], V[2]), WhitePoint::D65),
        [h, 1.0 - min / i, i],
        1e-4,
        "rgb_to_hsi",
    );
    // the inverses rebuild the input
    close(
        t::hsl_to_rgb(vec3(h, s_l, l), WhitePoint::D65),
        V,
        1e-4,
        "hsl_to_rgb",
    );
    close(
        t::hsv_to_rgb(vec3(h, c / max, max), WhitePoint::D65),
        V,
        1e-4,
        "hsv_to_rgb",
    );
    close(
        t::hsi_to_rgb(vec3(h, 1.0 - min / i, i), WhitePoint::D65),
        V,
        1e-4,
        "hsi_to_rgb",
    );
}

fn r_pq_encode(c: f64) -> f64 {
    let m1 = 0.1593017578125;
    let m2 = 78.84375;
    let y = (c / 10000.0).powf(m1);
    ((0.8359375 + 18.8515625 * y) / (18.6875 * y + 1.0)).powf(m2)
}

fn r_pq_decode(c: f64) -> f64 {
    let m1 = 0.1593017578125;
    let m2 = 78.84375;
    let v = c.powf(1.0 / m2);
    let n = (v - 0.8359375).max(0.0);
    10000.0 * (n / (18.8515625 - 18.6875 * v)).powf(1.0 / m1)
}

fn r_hlg(c: f64) -> f64 {
    if c <= 1.0 {
        0.5 * c.sqrt()
    } else {
        0.17883277 * (c - 0.28466892).ln() + 0.55991073
    }
}

fn r_hlg_inv(c: f64) -> f64 {
    if c <= 0.5 {
        (c / 0.5).powi(2)
    } else {
        ((c - 0.55991073) / 0.17883277).exp() + 0.28466892
    }
}

#[test]
fn reference_pq_hlg() {
    close(
        t::st_2084_pq_eotf_inverse(vec3(V[0], V[1], V[2]), WhitePoint::D65),
        [r_pq_encode(V[0]), r_pq_encode(V[1]), r_pq_encode(V[2])],
        1e-5,
        "st_2084_pq_eotf_inverse",
    );
    let enc = [r_pq_encode(V[0]), r_pq_encode(V[1]), r_pq_encode(V[2])];
    close(
        t::st_2084_pq_eotf(vec3(enc[0], enc[1], enc[2]), WhitePoint::D65),
        V,
        1e-3,
        "st_2084_pq_eotf",
    );
    let big = [0.35, 1.7, 3.0];
    close(
        t::arib_hlg_oetf(vec3(big[0], big[1], big[2]), WhitePoint::D65),
        [r_hlg(big[0]), r_hlg(big[1]), r_hlg(big[2])],
        1e-6,
        "arib_hlg_oetf",
    );
    let henc = [r_hlg(big[0]), r_hlg(big[1]), r_hlg(big[2])];
    close(
        t::arib_hlg_oetf_inverse(vec3(henc[0], henc[1], henc[2]), WhitePoint::D65),
        big,
        1e-5,
        "arib_hlg_oetf_inverse",
    );
}

const ICT_CP_LMS: [[f64; 3]; 3] = [
    [0.412109, 0.523926, 0.0639648],
    [0.166748, 0.720459, 0.112793],
    [0.0241699, 0.0754395, 0.900391],
];
const ICT_CP_FROM_PQ: [[f64; 3]; 3] = [
    [0.5, 0.5, 0.0],
    [1.61377, -3.32349, 1.70972],
    [4.37817, -4.24561, -0.132568],
];
const ICT_CP_FROM_HLG: [[f64; 3]; 3] = [
    [0.5, 0.5, 0.0],
    [0.88501, -1.82251, 0.9375],
    [2.31934, -2.24902, -0.0703125],
];

#[test]
fn reference_ict_cp() {
    let lms = matvec(ICT_CP_LMS, V);
    let pq = [r_pq_encode(lms[0]), r_pq_encode(lms[1]), r_pq_encode(lms[2])];
    close(
        t::rgb_to_ict_cp_pq(vec3(V[0], V[1], V[2]), WhitePoint::D65),
        matvec(ICT_CP_FROM_PQ, pq),
        1e-4,
        "rgb_to_ict_cp_pq",
    );
    let hlg = [r_hlg(lms[0]), r_hlg(lms[1]), r_hlg(lms[2])];
    close(
        t::rgb_to_ict_cp_hlg(vec3(V[0], V[1], V[2]), WhitePoint::D65),
        matvec(ICT_CP_FROM_HLG, hlg),
        1e-4,
        "rgb_to_ict_cp_hlg",
    );
}

#[test]
fn reference_cat_and_xyz_matrices() {
    // the Sharp cone CAT from D65 to D60 against a double evaluation
    let sharp = [
        [1.2694, -0.0988, -0.1706],
        [-0.8364, 1.8006, 0.0357],
        [0.0297, -0.0315, 1.0018],
    ];
    let d60 = [0.9523, 1.0, 1.00859];
    let sc = matvec(sharp, D65);
    let dc = matvec(sharp, d60);
    let diag = [
        [dc[0] / sc[0], 0.0, 0.0],
        [0.0, dc[1] / sc[1], 0.0],
        [0.0, 0.0, dc[2] / sc[2]],
    ];
    let want = {
        let t1 = matvec(
            inv3(sharp),
            matvec(diag, matvec(sharp, V)),
        );
        t1
    };
    let got = kolor::cat::chromatic_adaptation_transform(
        WhitePoint::D65.values(),
        WhitePoint::D60.values(),
        kolor::cat::LmsConeSpace::Sharp,
    )
    .mul_vec(vec3(V[0], V[1], V[2]));
    close(got, want, 1e-5, "sharp cat d65->d60");

    // the derived BT.709/D65 matrix against a double evaluation
    let prim: [(f64, f64); 3] = [(0.64, 0.33), (0.30, 0.60), (0.15, 0.06)];
    let p = [
        [
            prim[0].0 / prim[0].1,
            prim[1].0 / prim[1].1,
            prim[2].0 / prim[2].1,
        ],
        [1.0, 1.0, 1.0],
        [
            (1.0 - prim[0].0 - prim[0].1) / prim[0].1,
            (1.0 - prim[1].0 - prim[1].1) / prim[1].1,
            (1.0 - prim[2].0 - prim[2].1) / prim[2].1,
        ],
    ];
    let s = matvec(inv3(p), D65);
    let mut m = [[0.0; 3]; 3];
    for i in 0..3 {
        for j in 0..3 {
            m[i][j] = p[i][j] * s[j];
        }
    }
    let got = kolor::xyz::rgb_to_xyz(
        kolor::color::RgbPrimaries::Bt709.values(),
        WhitePoint::D65.values(),
    )
    .mul_vec(vec3(V[0], V[1], V[2]));
    close(got, matvec(m, V), 1e-5, "rgb_to_xyz bt709/d65");
}
