//! Properties of the conversion pipeline that hold for all inputs,
//! stated and proved once, for every caller to rely on.

use vstd::prelude::*;
use crate::color::ColorSpace;
use crate::color::TransformFn;
use crate::conversion::sp_conversion_apply;
use crate::conversion::sp_conversion_new;
use crate::conversion::sp_conversion_matrix;
use crate::matrices::sp_const_conversion_matrix;
use crate::transform::sp_apply_forward;
use crate::transform::sp_apply_inverse;
use crate::transform::sp_transform_pair_ok;
use crate::vecmat::Vec3;
use crate::vecmat::sp_mat_identity;

verus! {

/// The matrix between a linear space and itself is the identity: the
/// lookup's trivial-pair branch serves it, whatever the table holds.
pub proof fn lemma_conversion_matrix_self(s: ColorSpace)
    ensures
        sp_conversion_matrix(s, s) == sp_mat_identity(),
{
    assert(sp_const_conversion_matrix(s.primaries, s.white_point, s.primaries, s.white_point)
        == Some(sp_mat_identity()));
}

/// Identity conversion: for every linear space `s`, the conversion plan
/// from `s` to itself has no stages at all, and applying it returns the
/// input coordinate exactly.
pub proof fn lemma_identity_conversion_linear(s: ColorSpace, v: Vec3)
    requires
        s.spec_is_linear(),
    ensures
        sp_conversion_new(s, s).src_transform is None,
        sp_conversion_new(s, s).linear_transform is None,
        sp_conversion_new(s, s).dst_transform is None,
        sp_conversion_apply(sp_conversion_new(s, s), v) == v,
{
    assert(s.spec_as_linear() == s);
    lemma_conversion_matrix_self(s);
}

/// Identity conversion of a non-linear space: the plan from `s` to
/// itself has no linear stage, and applying it is exactly the inverse of
/// the space's own transform followed by its forward — the two stages
/// that make the identity only approximate in this case.
pub proof fn lemma_identity_conversion_nonlinear(s: ColorSpace, v: Vec3)
    requires
        !s.spec_is_linear(),
    ensures
        sp_conversion_new(s, s).linear_transform is None,
        sp_conversion_apply(sp_conversion_new(s, s), v) == sp_apply_forward(
            s.transform_fn,
            sp_apply_inverse(s.transform_fn, v, s.white_point),
            s.white_point,
        ),
{
    lemma_conversion_matrix_self(s.spec_as_linear());
}

/// Registry completeness: every implemented transform tag can be built
/// into a stage in both directions, as the inverse of a source space and
/// as the forward of a destination space, so `ColorTransform::new`
/// returns `Some` for it against `NONE`.
pub proof fn lemma_transform_registry_complete(tag: TransformFn)
    requires
        tag.spec_is_implemented(),
    ensures
        sp_transform_pair_ok(tag, TransformFn::NONE),
        sp_transform_pair_ok(TransformFn::NONE, tag),
{
}

/// A conversion plan between two linear spaces has no transform stages:
/// it is purely linear.
pub proof fn lemma_linear_spaces_linear_plan(src: ColorSpace, dst: ColorSpace)
    requires
        src.spec_is_linear(),
        dst.spec_is_linear(),
    ensures
        sp_conversion_new(src, dst).src_transform is None,
        sp_conversion_new(src, dst).dst_transform is None,
{
}

} // verus!
