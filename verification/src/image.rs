//! An image primitive that draws a textured quad.

use vstd::prelude::*;
use crate::context::Context;
use crate::fp::{dbl_of_i32, int_to_dbl, ZERO_BITS};
use crate::graphics::{BackEnd, ImageSize};
use crate::triangulation::{rect_tri_list_xy, rect_tri_list_uv};
use crate::types::{Color, Rectangle, SourceRectangle, is_transparent, is_transparent_spec};

verus! {

/// The local rectangle an image is drawn as: an axis-aligned quad at the
/// origin, sized to the image's source region.
pub open spec fn local_rect_spec(sr: SourceRectangle) -> Rectangle {
    Rectangle {
        x: ZERO_BITS,
        y: ZERO_BITS,
        w: dbl_of_i32(sr.w),
        h: dbl_of_i32(sr.h),
    }
}

/// An image with a source rectangle. The texture is borrowed, never
/// owned: its lifetime is the caller's responsibility.
pub struct Image<'a, I: ImageSize> {
    /// The texture to draw with.
    pub texture: &'a I,
    /// The color the back-end applies to the quad.
    pub color: Color,
    /// The image source rectangle, in texture pixel space.
    pub source_rectangle: SourceRectangle,
}

impl<'a, I: ImageSize> Image<'a, I> {
    /// Draws the image: binds the texture, sets the color, issues one
    /// textured triangle list whose positions triangulate the local
    /// rectangle under the context's model transform and whose texture
    /// coordinates triangulate the source rectangle against the texture's
    /// full dimensions, then unbinds the texture.
    ///
    /// A fully transparent color does not need to be rendered: if the
    /// alpha channel is zero the back-end is not called at all, so it
    /// comes back exactly as it went in.
    pub fn draw<B: BackEnd<I>>(&self, c: &Context, back_end: &mut B)
        ensures
            is_transparent_spec(self.color) ==> *final(back_end) == *old(back_end),
    {
        if is_transparent(self.color) {
            return;
        }
        let rect = Rectangle {
            x: ZERO_BITS,
            y: ZERO_BITS,
            w: int_to_dbl(self.source_rectangle.w),
            h: int_to_dbl(self.source_rectangle.h),
        };
        proof {
            assert(rect == local_rect_spec(self.source_rectangle));
        }
        back_end.enable_texture(self.texture);
        back_end.color(self.color);
        let xy = rect_tri_list_xy(c.transform, rect);
        let uv = rect_tri_list_uv(self.texture, self.source_rectangle);
        back_end.tri_list_uv(xy.as_slice(), uv.as_slice());
        back_end.disable_texture();
    }
}

} // verus!
