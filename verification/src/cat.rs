//! Chromatic Adaptation Transformation (CAT): re-referencing a linear
//! color space's coordinate system from one white point to another.
//!
//! [`LmsConeSpace`] lists the supported cone-response matrices;
//! [`LmsConeSpace::Sharp`] is the default used by
//! [`ColorConversion`][crate::conversion::ColorConversion].

use vstd::prelude::*;
use crate::fixed::sp_div;
use crate::fixed::fx_div;
use crate::vecmat::Vec3;
use crate::vecmat::Mat3;
use crate::vecmat::sp_mat_mul_vec;
use crate::vecmat::sp_mat_mul_mat;
use crate::vecmat::sp_mat_inverse;

verus! {

/// Supported cone-response spaces for chromatic adaptation.
// from S. Bianco, "Two New von Kries Based Chromatic Adaptation
// Transforms Found by Numerical Optimization."
#[derive(Debug, Copy, Clone, PartialEq, Eq, Hash, Structural)]
pub enum LmsConeSpace {
    VonKries,
    Bradford,
    Sharp,
    CmcCat2000,
    Cat02,
}

impl Default for LmsConeSpace {
    /// The default cone space is Sharp.
    fn default() -> (r: LmsConeSpace)
        ensures
            r == LmsConeSpace::Sharp,
    {
        LmsConeSpace::Sharp
    }
}

impl LmsConeSpace {
    /// The cone-response matrix of the given variant.
    pub open spec fn spec_matrix(&self) -> Mat3 {
        match self {
            LmsConeSpace::VonKries => (Mat3 { m00: 1719017711i64, m01: 3039118859i64, m02: -347076307i64, m10: -971951099i64, m11: 5005011289i64, m12: 196280005i64, m20: 0i64, m21: 0i64, m22: 3943724871i64 }),
            LmsConeSpace::Bradford => (Mat3 { m00: 3844425227i64, m01: 1144179288i64, m02: -693207722i64, m10: -3222084465i64, m11: 7359426462i64, m12: 157625300i64, m20: 167074228i64, m21: -294205260i64, m22: 4422098328i64 }),
            LmsConeSpace::Sharp => (Mat3 { m00: 5452031486i64, m01: -424342769i64, m02: -732721421i64, m10: -3592310646i64, m11: 7733518113i64, m12: 153330332i64, m20: 127560529i64, m21: -135291470i64, m22: 4302698237i64 }),
            LmsConeSpace::CmcCat2000 => (Mat3 { m00: 3428242896i64, m01: 1455564417i64, m02: -588840016i64, m10: -2541761646i64, m11: 6662353270i64, m12: 174375672i64, m20: 3435974i64, m21: 1026497184i64, m22: 4188881604i64 }),
            LmsConeSpace::Cat02 => (Mat3 { m00: 3147352035i64, m01: 1845117950i64, m02: -697502689i64, m10: -3021938989i64, m11: 7290706985i64, m12: 26199301i64, m20: 12884902i64, m21: 58411555i64, m22: 4223670839i64 }),
        }
    }

    /// The cone-response matrix of the given variant.
    #[verifier::when_used_as_spec(spec_matrix)]
    pub fn matrix(&self) -> (r: Mat3)
        ensures
            r == self.spec_matrix(),
    {
        match self {
            LmsConeSpace::VonKries => (Mat3 { m00: 1719017711i64, m01: 3039118859i64, m02: -347076307i64, m10: -971951099i64, m11: 5005011289i64, m12: 196280005i64, m20: 0i64, m21: 0i64, m22: 3943724871i64 }),
            LmsConeSpace::Bradford => (Mat3 { m00: 3844425227i64, m01: 1144179288i64, m02: -693207722i64, m10: -3222084465i64, m11: 7359426462i64, m12: 157625300i64, m20: 167074228i64, m21: -294205260i64, m22: 4422098328i64 }),
            LmsConeSpace::Sharp => (Mat3 { m00: 5452031486i64, m01: -424342769i64, m02: -732721421i64, m10: -3592310646i64, m11: 7733518113i64, m12: 153330332i64, m20: 127560529i64, m21: -135291470i64, m22: 4302698237i64 }),
            LmsConeSpace::CmcCat2000 => (Mat3 { m00: 3428242896i64, m01: 1455564417i64, m02: -588840016i64, m10: -2541761646i64, m11: 6662353270i64, m12: 174375672i64, m20: 3435974i64, m21: 1026497184i64, m22: 4188881604i64 }),
            LmsConeSpace::Cat02 => (Mat3 { m00: 3147352035i64, m01: 1845117950i64, m02: -697502689i64, m10: -3021938989i64, m11: 7290706985i64, m12: 26199301i64, m20: 12884902i64, m21: 58411555i64, m22: 4223670839i64 }),
        }
    }

    /// The CAT matrix for converting from one white point to another.
    pub fn chromatic_adaptation_transform(&self, src_illuminant: Vec3, dst_illuminant: Vec3) -> (r:
        Mat3)
        ensures
            r == sp_chromatic_adaptation_transform(*self, src_illuminant, dst_illuminant),
    {
        let cone_space_transform: Mat3 = self.matrix();
        let src_cone_response: Vec3 = cone_space_transform.mul_vec(src_illuminant);
        let dst_cone_response: Vec3 = cone_space_transform.mul_vec(dst_illuminant);
        let src_to_dst_cone: Mat3 = Mat3 {
            m00: fx_div(dst_cone_response.x, src_cone_response.x),
            m01: 0,
            m02: 0,
            m10: 0,
            m11: fx_div(dst_cone_response.y, src_cone_response.y),
            m12: 0,
            m20: 0,
            m21: 0,
            m22: fx_div(dst_cone_response.z, src_cone_response.z),
        };
        cone_space_transform.inverse().mul_mat(&src_to_dst_cone).mul_mat(&cone_space_transform)
    }
}

/// What chromatic adaptation computes: both white points are taken into
/// the cone-response space, a diagonal matrix scales each response by the
/// destination/source ratio, and the result is conjugated back.
pub open spec fn sp_chromatic_adaptation_transform(
    cone: LmsConeSpace,
    src_illuminant: Vec3,
    dst_illuminant: Vec3,
) -> Mat3 {
    let m = cone.spec_matrix();
    let sc = sp_mat_mul_vec(m, src_illuminant);
    let dc = sp_mat_mul_vec(m, dst_illuminant);
    let d = Mat3 {
        m00: sp_div(dc.x as int, sc.x as int) as i64,
        m01: 0i64,
        m02: 0i64,
        m10: 0i64,
        m11: sp_div(dc.y as int, sc.y as int) as i64,
        m12: 0i64,
        m20: 0i64,
        m21: 0i64,
        m22: sp_div(dc.z as int, sc.z as int) as i64,
    };
    sp_mat_mul_mat(sp_mat_mul_mat(sp_mat_inverse(m), d), m)
}

/// The cone-response matrix of the given variant.
pub fn lms_cone_space_matrix(cone_space: LmsConeSpace) -> (r: Mat3)
    ensures
        r == cone_space.spec_matrix(),
{
    cone_space.matrix()
}

/// The CAT matrix between two white-point tristimuli over the given cone
/// space.
pub fn chromatic_adaptation_transform(
    src_illuminant: Vec3,
    dst_illuminant: Vec3,
    cone_space: LmsConeSpace,
) -> (r: Mat3)
    ensures
        r == sp_chromatic_adaptation_transform(cone_space, src_illuminant, dst_illuminant),
{
    cone_space.chromatic_adaptation_transform(src_illuminant, dst_illuminant)
}

} // verus!
