//! The conversion pipeline: [`LinearColorConversion`], a single matrix
//! between two linear spaces, and [`ColorConversion`], the composition of
//! up to three stages (source inverse transform, linear matrix,
//! destination forward transform).

use vstd::prelude::*;
use crate::color::ColorSpace;
use crate::color::RgbPrimaries;
use crate::color::TransformFn;
use crate::cat::LmsConeSpace;
use crate::cat::sp_chromatic_adaptation_transform;
use crate::matrices::sp_const_conversion_matrix;
use crate::matrices::const_conversion_matrix;
use crate::transform::ColorTransform;
use crate::transform::sp_color_transform_apply;
use crate::vecmat::Vec3;
use crate::vecmat::Mat3;
use crate::vecmat::sp_mat_identity;
use crate::vecmat::sp_mat_mul_mat;
use crate::vecmat::sp_mat_mul_vec;
use crate::xyz::sp_rgb_to_xyz;
use crate::xyz::sp_xyz_to_rgb;
use crate::xyz::rgb_to_xyz;
use crate::xyz::xyz_to_rgb;

verus! {

/// The on-demand derivation of the matrix between two linear spaces:
/// source RGB to XYZ, a Sharp-cone chromatic adaptation when the white
/// points differ, then XYZ to destination RGB.  XYZ-primaries spaces use
/// the identity in place of a derived RGB matrix.
pub open spec fn sp_derived_conversion_matrix(src: ColorSpace, dst: ColorSpace) -> Mat3 {
    let src_to_xyz = if src.primaries == RgbPrimaries::CieXyz {
        sp_mat_identity()
    } else {
        sp_rgb_to_xyz(src.primaries.spec_values(), src.white_point.spec_values())
    };
    let xyz_to_dst = if dst.primaries == RgbPrimaries::CieXyz {
        sp_mat_identity()
    } else {
        sp_xyz_to_rgb(dst.primaries.spec_values(), dst.white_point.spec_values())
    };
    if src.white_point != dst.white_point {
        let cat = sp_chromatic_adaptation_transform(
            LmsConeSpace::Sharp,
            src.white_point.spec_values(),
            dst.white_point.spec_values(),
        );
        sp_mat_mul_mat(sp_mat_mul_mat(xyz_to_dst, cat), src_to_xyz)
    } else {
        sp_mat_mul_mat(xyz_to_dst, src_to_xyz)
    }
}

/// Derives the conversion matrix between two linear spaces on demand,
/// without consulting the precomputed table.
pub fn derived_conversion_matrix(src: ColorSpace, dst: ColorSpace) -> (r: Mat3)
    requires
        src.is_linear(),
        dst.is_linear(),
    ensures
        r == sp_derived_conversion_matrix(src, dst),
{
    let src_to_xyz: Mat3 = if src.primaries() == RgbPrimaries::CieXyz {
        Mat3::identity()
    } else {
        rgb_to_xyz(src.primaries().values(), src.white_point().values())
    };
    let xyz_to_dst: Mat3 = if dst.primaries() == RgbPrimaries::CieXyz {
        Mat3::identity()
    } else {
        xyz_to_rgb(dst.primaries().values(), dst.white_point().values())
    };
    if src.white_point() != dst.white_point() {
        let cat: Mat3 = LmsConeSpace::Sharp.chromatic_adaptation_transform(
            src.white_point().values(),
            dst.white_point().values(),
        );
        xyz_to_dst.mul_mat(&cat).mul_mat(&src_to_xyz)
    } else {
        xyz_to_dst.mul_mat(&src_to_xyz)
    }
}

/// The matrix between two linear spaces: the precomputed table entry when
/// one exists, the on-demand derivation otherwise.
pub open spec fn sp_conversion_matrix(src: ColorSpace, dst: ColorSpace) -> Mat3 {
    match sp_const_conversion_matrix(src.primaries, src.white_point, dst.primaries, dst.white_point) {
        Some(m) => m,
        None => sp_derived_conversion_matrix(src, dst),
    }
}

/// A transformation from one linear color space to another.
#[derive(Debug, Copy, Clone, PartialEq, Eq, Hash, Structural)]
pub struct LinearColorConversion {
    pub mat: Mat3,
    pub input_space: ColorSpace,
    pub output_space: ColorSpace,
}

impl LinearColorConversion {
    /// The input space.
    pub fn input_space(&self) -> (r: ColorSpace)
        ensures
            r == self.input_space,
    {
        self.input_space
    }

    /// The output space.
    pub fn output_space(&self) -> (r: ColorSpace)
        ensures
            r == self.output_space,
    {
        self.output_space
    }

    /// The conversion matrix itself.
    pub fn matrix(&self) -> (r: Mat3)
        ensures
            r == self.mat,
    {
        self.mat
    }

    /// Applies the matrix to a color coordinate in place.
    pub fn apply(&self, color: &mut Vec3)
        ensures
            *final(color) == sp_mat_mul_vec(self.mat, *old(color)),
    {
        *color = self.mat.mul_vec(*color);
    }

    /// The conversion between two linear spaces: the precomputed matrix
    /// when the table holds one, the on-demand derivation otherwise.
    /// Both spaces must be linear.
    pub fn new(src: ColorSpace, dst: ColorSpace) -> (r: LinearColorConversion)
        requires
            src.is_linear(),
            dst.is_linear(),
        ensures
            r == (LinearColorConversion {
                mat: sp_conversion_matrix(src, dst),
                input_space: src,
                output_space: dst,
            }),
    {
        let const_conversion: Option<Mat3> = const_conversion_matrix(
            src.primaries(),
            src.white_point(),
            dst.primaries(),
            dst.white_point(),
        );
        let mat: Mat3 = match const_conversion {
            Some(const_mat) => const_mat,
            None => derived_conversion_matrix(src, dst),
        };
        LinearColorConversion { mat, input_space: src, output_space: dst }
    }
}

/// A directed conversion plan from a source [`ColorSpace`] to a
/// destination [`ColorSpace`]: up to three stages, each omitted when it
/// would do nothing.
#[derive(Debug, Copy, Clone, PartialEq, Eq, Hash, Structural)]
pub struct ColorConversion {
    pub src_space: ColorSpace,
    pub dst_space: ColorSpace,
    pub src_transform: Option<ColorTransform>,
    pub linear_transform: Option<LinearColorConversion>,
    pub dst_transform: Option<ColorTransform>,
}

/// What `ColorConversion::new` builds: an inverse stage when the source
/// is non-linear, the linear matrix unless it is the identity, and a
/// forward stage when the destination is non-linear.
pub open spec fn sp_conversion_new(src: ColorSpace, dst: ColorSpace) -> ColorConversion {
    let lin = sp_conversion_matrix(src.spec_as_linear(), dst.spec_as_linear());
    ColorConversion {
        src_space: src,
        dst_space: dst,
        src_transform: if src.spec_is_linear() {
            None
        } else {
            Some(ColorTransform { src: src.transform_fn, dst: TransformFn::NONE })
        },
        linear_transform: if lin == sp_mat_identity() {
            None
        } else {
            Some(
                LinearColorConversion {
                    mat: lin,
                    input_space: src.spec_as_linear(),
                    output_space: dst.spec_as_linear(),
                },
            )
        },
        dst_transform: if dst.spec_is_linear() {
            None
        } else {
            Some(ColorTransform { src: TransformFn::NONE, dst: dst.transform_fn })
        },
    }
}

/// What a conversion plan computes: each present stage applied in order.
pub open spec fn sp_conversion_apply(c: ColorConversion, v: Vec3) -> Vec3 {
    let c1 = match c.src_transform {
        Some(t) => sp_color_transform_apply(t, v, c.src_space.white_point),
        None => v,
    };
    let c2 = match c.linear_transform {
        Some(l) => sp_mat_mul_vec(l.mat, c1),
        None => c1,
    };
    match c.dst_transform {
        Some(t) => sp_color_transform_apply(t, c2, c.dst_space.white_point),
        None => c2,
    }
}

impl ColorConversion {
    /// The conversion plan from `src` to `dst`.  Each space's transform
    /// tag must be `NONE` or an implemented transform; the CIE 1964 UVW
    /// tag has no registered pair and is refused by this precondition.
    pub fn new(src: ColorSpace, dst: ColorSpace) -> (r: ColorConversion)
        requires
            src.transform_fn == TransformFn::NONE || src.transform_fn.is_implemented(),
            dst.transform_fn == TransformFn::NONE || dst.transform_fn.is_implemented(),
        ensures
            r == sp_conversion_new(src, dst),
    {
        let src_transform: Option<ColorTransform> = if !src.is_linear() {
            ColorTransform::new(src.transform_function(), TransformFn::NONE)
        } else {
            None
        };
        let src_linear: ColorSpace = ColorSpace::linear(src.primaries(), src.white_point());
        let dst_linear: ColorSpace = ColorSpace::linear(dst.primaries(), dst.white_point());
        let linear: LinearColorConversion = LinearColorConversion::new(src_linear, dst_linear);
        let linear_transform: Option<LinearColorConversion> = if linear.mat == Mat3::identity() {
            None
        } else {
            Some(linear)
        };
        let dst_transform: Option<ColorTransform> = if !dst.is_linear() {
            ColorTransform::new(TransformFn::NONE, dst.transform_function())
        } else {
            None
        };
        ColorConversion { src_space: src, dst_space: dst, src_transform, linear_transform, dst_transform }
    }

    /// The conversion plan in the opposite direction, built afresh rather
    /// than inverted algebraically, so round trips are only approximate.
    pub fn invert(&self) -> (r: ColorConversion)
        requires
            self.src_space.transform_fn == TransformFn::NONE
                || self.src_space.transform_fn.is_implemented(),
            self.dst_space.transform_fn == TransformFn::NONE
                || self.dst_space.transform_fn.is_implemented(),
        ensures
            r == sp_conversion_new(self.dst_space, self.src_space),
    {
        ColorConversion::new(self.dst_space, self.src_space)
    }

    /// Whether the plan has no transform stages.
    pub fn is_linear(&self) -> (r: bool)
        ensures
            r == (self.src_transform is None && self.dst_transform is None),
    {
        self.src_transform.is_none() && self.dst_transform.is_none()
    }

    /// The linear stage of the plan, or the identity between its spaces
    /// when the stage was omitted.
    pub fn linear_part(&self) -> (r: LinearColorConversion)
        ensures
            r == match self.linear_transform {
                Some(l) => l,
                None => LinearColorConversion {
                    mat: sp_mat_identity(),
                    input_space: self.src_space,
                    output_space: self.dst_space,
                },
            },
    {
        match self.linear_transform.as_ref() {
            Some(transform) => *transform,
            None => LinearColorConversion {
                mat: Mat3::identity(),
                input_space: self.src_space,
                output_space: self.dst_space,
            },
        }
    }

    /// The source transform tag, or `NONE` when the plan has no source
    /// stage.
    pub fn src_transform(&self) -> (r: TransformFn)
        ensures
            r == if self.src_transform is Some {
                self.src_space.transform_fn
            } else {
                TransformFn::NONE
            },
    {
        if self.src_transform.is_some() {
            self.src_space.transform_function()
        } else {
            TransformFn::NONE
        }
    }

    /// The destination transform tag, or `NONE` when the plan has no
    /// destination stage.
    pub fn dst_transform(&self) -> (r: TransformFn)
        ensures
            r == if self.dst_transform is Some {
                self.dst_space.transform_fn
            } else {
                TransformFn::NONE
            },
    {
        if self.dst_transform.is_some() {
            self.dst_space.transform_function()
        } else {
            TransformFn::NONE
        }
    }

    /// The source space.
    pub fn src_space(&self) -> (r: ColorSpace)
        ensures
            r == self.src_space,
    {
        self.src_space
    }

    /// The destination space.
    pub fn dst_space(&self) -> (r: ColorSpace)
        ensures
            r == self.dst_space,
    {
        self.dst_space
    }

    /// Runs the plan on a color coordinate in place: the source inverse
    /// transform, the linear matrix, and the destination forward
    /// transform, each when present.
    pub fn apply(&self, color: &mut Vec3)
        ensures
            *final(color) == sp_conversion_apply(*self, *old(color)),
    {
        if let Some(src_transform) = self.src_transform.as_ref() {
            *color = src_transform.apply(*color, self.src_space.white_point());
        }
        if let Some(transform) = self.linear_transform.as_ref() {
            transform.apply(color);
        }
        if let Some(dst_transform) = self.dst_transform.as_ref() {
            *color = dst_transform.apply(*color, self.dst_space.white_point());
        }
    }

    /// Runs the plan on a color coordinate, returning the converted one.
    pub fn convert(&self, color: Vec3) -> (r: Vec3)
        ensures
            r == sp_conversion_apply(*self, color),
    {
        let mut c: Vec3 = color;
        self.apply(&mut c);
        c
    }
}

} // verus!
