//! Back-end capabilities.

use vstd::prelude::*;
use crate::context::DrawState;
use crate::types::Color;

verus! {

/// Implemented by texture types: reports the texture's dimensions in
/// pixels, used to normalize texture coordinates.
pub trait ImageSize {
    /// Width of the texture, in pixels.
    fn get_width(&self) -> u32;

    /// Height of the texture, in pixels.
    fn get_height(&self) -> u32;
}

/// Implemented by all graphics back-ends.
///
/// Vertex data is passed as flat buffers of binary64 bit patterns, two
/// coordinates per vertex and three vertices per triangle, so every
/// buffer length is a multiple of six; texture coordinates are binary32
/// bit patterns, one pair per vertex. The draw state handed to a call is
/// the authoritative configuration for that call only.
pub trait Graphics {
    /// The texture type associated with the back-end.
    type Texture: ImageSize;

    /// Clears the whole target with one flat color.
    fn clear(&mut self, color: Color);

    /// Renders a list of 2D triangles.
    fn tri_list(&mut self, draw_state: &DrawState, color: &Color, vertices: &[u64])
        requires
            vertices@.len() % 6 == 0,
    ;

    /// Renders a list of 2D triangles with one texture coordinate pair
    /// per vertex, referring to the supplied texture.
    fn tri_list_uv(
        &mut self,
        draw_state: &DrawState,
        color: &Color,
        texture: &Self::Texture,
        vertices: &[u64],
        texture_coords: &[u32],
    )
        requires
            vertices@.len() == texture_coords@.len(),
            vertices@.len() % 6 == 0,
    ;
}

/// Implemented by back-ends that additionally manage a bound texture and
/// a current draw color, as the image primitive expects.
pub trait BackEnd<I: ImageSize> {
    /// Clears the whole target with one flat color.
    fn clear(&mut self, color: Color);

    /// Sets the color applied to subsequent triangle lists.
    fn color(&mut self, color: Color);

    /// Binds a texture for subsequent textured triangle lists.
    fn enable_texture(&mut self, texture: &I);

    /// Unbinds the current texture.
    fn disable_texture(&mut self);

    /// Renders a list of 2D triangles.
    fn tri_list(&mut self, vertices: &[u64])
        requires
            vertices@.len() % 6 == 0,
    ;

    /// Renders a list of 2D triangles with one texture coordinate pair
    /// per vertex, referring to the currently bound texture.
    fn tri_list_uv(&mut self, vertices: &[u64], texture_coords: &[u32])
        requires
            vertices@.len() == texture_coords@.len(),
            vertices@.len() % 6 == 0,
    ;
}

} // verus!
