//! Triangulation of rectangles into triangle lists.
//!
//! A rectangle decomposes into two triangles that share one diagonal,
//! giving six vertices in a fixed order: upper-left, upper-right,
//! lower-left for the first triangle, then upper-right, lower-right,
//! lower-left for the second. Position vertices are the rectangle's
//! corners mapped by an affine transform; texture-coordinate vertices are
//! the corners of a source rectangle divided by the texture's full
//! dimensions.

use vstd::prelude::*;
use crate::fp::{
    sum64, prod64, sgl_of_i64, sgl_of_u32, quot32, add64, mul64, int_to_sgl, dim_to_sgl, div32,
};
use crate::graphics::ImageSize;
use crate::matrix::Matrix2d;
use crate::types::{Rectangle, SourceRectangle};

verus! {

/// The x coordinate of the point `(x, y)` mapped by the affine transform
/// `m`: the left-associated binary64 sum `m00·x + m01·y + m02`.
pub open spec fn tx_spec(m: Matrix2d, x: u64, y: u64) -> u64 {
    sum64(sum64(prod64(m.m00, x), prod64(m.m01, y)), m.m02)
}

/// The y coordinate of the point `(x, y)` mapped by the affine transform
/// `m`: the left-associated binary64 sum `m10·x + m11·y + m12`.
pub open spec fn ty_spec(m: Matrix2d, x: u64, y: u64) -> u64 {
    sum64(sum64(prod64(m.m10, x), prod64(m.m11, y)), m.m12)
}

/// The twelve position coordinates of a rectangle triangulated under the
/// affine transform `m`: the corners at `x` or `x + w` and `y` or
/// `y + h`, mapped by `m`, in the fixed vertex order.
pub open spec fn rect_xy_seq(m: Matrix2d, r: Rectangle) -> Seq<u64> {
    let x2 = sum64(r.x, r.w);
    let y2 = sum64(r.y, r.h);
    seq![
        tx_spec(m, r.x, r.y), ty_spec(m, r.x, r.y),
        tx_spec(m, x2, r.y), ty_spec(m, x2, r.y),
        tx_spec(m, r.x, y2), ty_spec(m, r.x, y2),
        tx_spec(m, x2, r.y), ty_spec(m, x2, r.y),
        tx_spec(m, x2, y2), ty_spec(m, x2, y2),
        tx_spec(m, r.x, y2), ty_spec(m, r.x, y2),
    ]
}

/// The twelve texture coordinates of a source rectangle triangulated
/// against a `w` by `h` texture: each corner divided channel-wise by the
/// texture's dimensions, in the same fixed vertex order as the positions.
/// The far corners are summed in 64-bit, so every source rectangle has a
/// triangulation.
pub open spec fn rect_uv_seq(sr: SourceRectangle, w: u32, h: u32) -> Seq<u32> {
    let u1 = quot32(sgl_of_i64(sr.x as i64), sgl_of_u32(w));
    let v1 = quot32(sgl_of_i64(sr.y as i64), sgl_of_u32(h));
    let u2 = quot32(sgl_of_i64((sr.x + sr.w) as i64), sgl_of_u32(w));
    let v2 = quot32(sgl_of_i64((sr.y + sr.h) as i64), sgl_of_u32(h));
    seq![
        u1, v1,
        u2, v1,
        u1, v2,
        u2, v1,
        u2, v2,
        u1, v2,
    ]
}

/// Maps the x coordinate of a point by an affine transform.
fn tx(m: &Matrix2d, x: u64, y: u64) -> (r: u64)
    ensures
        r == tx_spec(*m, x, y),
{
    add64(add64(mul64(m.m00, x), mul64(m.m01, y)), m.m02)
}

/// Maps the y coordinate of a point by an affine transform.
fn ty(m: &Matrix2d, x: u64, y: u64) -> (r: u64)
    ensures
        r == ty_spec(*m, x, y),
{
    add64(add64(mul64(m.m10, x), mul64(m.m11, y)), m.m12)
}

/// Triangulates a rectangle under an affine transform into the flat
/// buffer of its twelve position coordinates, in the fixed vertex order.
pub fn rect_tri_list_xy(m: Matrix2d, rect: Rectangle) -> (r: Vec<u64>)
    ensures
        r@ == rect_xy_seq(m, rect),
        r@.len() == 12,
{
    let x2 = add64(rect.x, rect.w);
    let y2 = add64(rect.y, rect.h);
    let mut v: Vec<u64> = Vec::new();
    v.push(tx(&m, rect.x, rect.y));
    v.push(ty(&m, rect.x, rect.y));
    v.push(tx(&m, x2, rect.y));
    v.push(ty(&m, x2, rect.y));
    v.push(tx(&m, rect.x, y2));
    v.push(ty(&m, rect.x, y2));
    v.push(tx(&m, x2, rect.y));
    v.push(ty(&m, x2, rect.y));
    v.push(tx(&m, x2, y2));
    v.push(ty(&m, x2, y2));
    v.push(tx(&m, rect.x, y2));
    v.push(ty(&m, rect.x, y2));
    proof {
        assert(v@ =~= rect_xy_seq(m, rect));
    }
    v
}

/// Triangulates a source rectangle against explicit texture dimensions
/// into the flat buffer of its twelve texture coordinates, in the same
/// fixed vertex order as the positions. Total over all inputs: the far
/// corners are summed in 64-bit, so no source rectangle overflows.
pub fn rect_tri_list_uv_dims(sr: SourceRectangle, w: u32, h: u32) -> (r: Vec<u32>)
    ensures
        r@ == rect_uv_seq(sr, w, h),
        r@.len() == 12,
{
    let sw = dim_to_sgl(w);
    let sh = dim_to_sgl(h);
    let u1 = div32(int_to_sgl(sr.x as i64), sw);
    let v1 = div32(int_to_sgl(sr.y as i64), sh);
    let u2 = div32(int_to_sgl(sr.x as i64 + sr.w as i64), sw);
    let v2 = div32(int_to_sgl(sr.y as i64 + sr.h as i64), sh);
    let mut v: Vec<u32> = Vec::new();
    v.push(u1);
    v.push(v1);
    v.push(u2);
    v.push(v1);
    v.push(u1);
    v.push(v2);
    v.push(u2);
    v.push(v1);
    v.push(u2);
    v.push(v2);
    v.push(u1);
    v.push(v2);
    proof {
        assert(v@ =~= rect_uv_seq(sr, w, h));
    }
    v
}

/// Triangulates a source rectangle against the full dimensions that the
/// texture reports. Whatever dimensions come back, the result is the
/// twelve texture coordinates of the source rectangle against them.
pub fn rect_tri_list_uv<I: ImageSize>(texture: &I, sr: SourceRectangle) -> (r: Vec<u32>)
    ensures
        r@.len() == 12,
        exists|w: u32, h: u32| r@ == rect_uv_seq(sr, w, h),
{
    let w = texture.get_width();
    let h = texture.get_height();
    let r = rect_tri_list_uv_dims(sr, w, h);
    proof {
        assert(r@ == rect_uv_seq(sr, w, h));
    }
    r
}

/// Law: for any transform, rectangle, source rectangle and texture
/// dimensions, the two triangulations are parallel buffers — the same
/// length, holding a whole number of triangles of three two-coordinate
/// vertices each.
pub proof fn lemma_tri_lists_parallel(m: Matrix2d, r: Rectangle, sr: SourceRectangle, w: u32, h: u32)
    ensures
        rect_xy_seq(m, r).len() == rect_uv_seq(sr, w, h).len(),
        rect_xy_seq(m, r).len() % 6 == 0,
{
}

} // verus!
