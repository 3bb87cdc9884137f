//! Transformation context.

use vstd::prelude::*;
use crate::fp::{quot64, div64, ZERO_BITS, ONE_BITS, NEG_ONE_BITS, TWO_BITS, NEG_TWO_BITS};
use crate::matrix::{Matrix2d, mat_id, mat_mul, trans_mat, scale_mat, identity, multiply};
use crate::types::Scalar;

verus! {

#[verifier::external_type_specification]
#[verifier::external_body]
pub struct ExRasterizer(draw_state::state::Rasterizer);

#[verifier::external_type_specification]
#[verifier::external_body]
pub struct ExBlend(draw_state::state::Blend);

/// Rasterizer and blend configuration handed to the back-end with every
/// draw call. Both blocks are opaque to this crate: it only builds the
/// documented default and passes the value through.
#[derive(Clone, Copy)]
pub struct DrawState {
    /// How primitives are rasterized.
    pub rasterizer: draw_state::state::Rasterizer,
    /// How fragments are blended into the target.
    pub blend: draw_state::state::Blend,
}

/// Relies on `draw_state::state::Rasterizer::new_fill`: fill rasterization
/// with no face culling and no offset.
#[verifier::external_body]
fn fill_rasterizer() -> draw_state::state::Rasterizer {
    draw_state::state::Rasterizer::new_fill()
}

/// Relies on `draw_state::preset::blend::ALPHA`: the standard
/// alpha-blending preset.
#[verifier::external_body]
fn alpha_blend() -> draw_state::state::Blend {
    draw_state::preset::blend::ALPHA
}

/// Builds the default draw state: fill rasterization with no face
/// culling, and alpha blending.
fn default_draw_state() -> DrawState {
    DrawState {
        rasterizer: fill_rasterizer(),
        blend: alpha_blend(),
    }
}

/// The current model transform of a context, as a property value.
#[derive(Clone, Copy, PartialEq, Eq, Structural, Debug)]
pub struct Transform(pub Matrix2d);

/// The fixed view transform of a context, as a property value.
#[derive(Clone, Copy, PartialEq, Eq, Structural, Debug)]
pub struct ViewTransform(pub Matrix2d);

/// A 2D drawing context: a fixed view transform, an accumulated model
/// transform, and a draw-state snapshot. Contexts are plain values:
/// every operation that changes one returns a new context and leaves
/// the original untouched.
#[derive(Clone, Copy)]
pub struct Context {
    /// View transformation, set once at construction.
    pub view: Matrix2d,
    /// Current model transformation.
    pub transform: Matrix2d,
    /// Current draw state settings.
    pub draw_state: DrawState,
}

/// A context with its model transform replaced and everything else kept.
pub open spec fn set_transform_spec(c: Context, m: Matrix2d) -> Context {
    Context { transform: m, ..c }
}

/// A context with its view transform replaced and everything else kept.
pub open spec fn set_view_spec(c: Context, m: Matrix2d) -> Context {
    Context { view: m, ..c }
}

/// The view matrix of `Context::abs(w, h)`: the pixel-space viewport of
/// width `w` and height `h` mapped to normalized device coordinates, with
/// the origin moved to the upper-left corner and the y axis flipped.
pub open spec fn abs_mat(w: Scalar, h: Scalar) -> Matrix2d {
    Matrix2d {
        m00: quot64(TWO_BITS, w),
        m01: ZERO_BITS,
        m02: NEG_ONE_BITS,
        m10: ZERO_BITS,
        m11: quot64(NEG_TWO_BITS, h),
        m12: ONE_BITS,
    }
}

impl Context {
    /// Creates a new drawing context whose view and model transforms are
    /// both the identity; in particular the model transform has a zero
    /// translation column.
    pub fn new() -> (c: Context)
        ensures
            c.view == mat_id(),
            c.transform == mat_id(),
            c.transform.m02 == ZERO_BITS,
            c.transform.m12 == ZERO_BITS,
    {
        Context {
            view: identity(),
            transform: identity(),
            draw_state: default_draw_state(),
        }
    }

    /// Creates a new drawing context in absolute pixel coordinates.
    ///
    /// Assuming the default coordinate system is centered with the x axis
    /// pointing right and the y axis pointing up, the returned context has
    /// its origin in the upper-left corner of a `w` by `h` pixel viewport,
    /// with the x axis pointing right and the y axis pointing down: both
    /// matrices scale by `2 / w` and `-2 / h` and translate by `(-1, 1)`.
    pub fn abs(w: Scalar, h: Scalar) -> (c: Context)
        ensures
            c.view == abs_mat(w, h),
            c.transform == abs_mat(w, h),
    {
        let sx = div64(TWO_BITS, w);
        let sy = div64(NEG_TWO_BITS, h);
        let mat = Matrix2d {
            m00: sx,
            m01: ZERO_BITS,
            m02: NEG_ONE_BITS,
            m10: ZERO_BITS,
            m11: sy,
            m12: ONE_BITS,
        };
        Context {
            view: mat,
            transform: mat,
            draw_state: default_draw_state(),
        }
    }

    /// Reads the current model transform.
    pub fn transform(&self) -> (t: Transform)
        ensures
            t.0 == self.transform,
    {
        Transform(self.transform)
    }

    /// Reads the fixed view transform.
    pub fn view_transform(&self) -> (t: ViewTransform)
        ensures
            t.0 == self.view,
    {
        ViewTransform(self.view)
    }

    /// Returns a context with its model transform replaced by `val` and
    /// every other field unchanged.
    pub fn with_transform(self, val: Transform) -> (c: Context)
        ensures
            c == set_transform_spec(self, val.0),
            c.transform == val.0,
            c.view == self.view,
            c.draw_state == self.draw_state,
    {
        Context { transform: val.0, ..self }
    }

    /// Returns a context with its view transform replaced by `val` and
    /// every other field unchanged.
    pub fn with_view(self, val: ViewTransform) -> (c: Context)
        ensures
            c == set_view_spec(self, val.0),
            c.view == val.0,
            c.transform == self.transform,
            c.draw_state == self.draw_state,
    {
        Context { view: val.0, ..self }
    }

    /// Returns a context whose model transform is the translation by
    /// `(tx, ty)` composed with the current model transform; the view and
    /// the draw state are unchanged.
    pub fn trans(self, tx: Scalar, ty: Scalar) -> (c: Context)
        ensures
            c.transform == mat_mul(trans_mat(tx, ty), self.transform),
            c.view == self.view,
            c.draw_state == self.draw_state,
    {
        let delta = Matrix2d {
            m00: ONE_BITS,
            m01: ZERO_BITS,
            m02: tx,
            m10: ZERO_BITS,
            m11: ONE_BITS,
            m12: ty,
        };
        Context { transform: multiply(delta, self.transform), ..self }
    }

    /// Returns a context whose model transform is the scaling by
    /// `(sx, sy)` composed with the current model transform; the view and
    /// the draw state are unchanged.
    pub fn scale(self, sx: Scalar, sy: Scalar) -> (c: Context)
        ensures
            c.transform == mat_mul(scale_mat(sx, sy), self.transform),
            c.view == self.view,
            c.draw_state == self.draw_state,
    {
        let delta = Matrix2d {
            m00: sx,
            m01: ZERO_BITS,
            m02: ZERO_BITS,
            m10: ZERO_BITS,
            m11: sy,
            m12: ZERO_BITS,
        };
        Context { transform: multiply(delta, self.transform), ..self }
    }
}

/// Law: reading the model transform right after setting it returns the
/// value that was set, and the view is untouched.
pub proof fn lemma_get_after_set_transform(c: Context, m: Matrix2d)
    ensures
        set_transform_spec(c, m).transform == m,
        set_transform_spec(c, m).view == c.view,
{
}

/// Law: reading the view transform right after setting it returns the
/// value that was set, and the model transform is untouched.
pub proof fn lemma_get_after_set_view(c: Context, m: Matrix2d)
    ensures
        set_view_spec(c, m).view == m,
        set_view_spec(c, m).transform == c.transform,
{
}

} // verus!
