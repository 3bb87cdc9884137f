//! Plain value types shared by the drawing primitives.

use vstd::prelude::*;

verus! {

/// An IEEE 754 binary64 value, carried as its raw bit pattern.
pub type Scalar = u64;

/// A four-channel RGBA color. Each channel is an IEEE 754 binary32 value
/// carried as its raw bit pattern, conventionally in `[0, 1]`. An alpha
/// channel equal to zero marks a fully transparent color whose rendering
/// is skipped.
#[derive(Clone, Copy, PartialEq, Eq, Structural, Debug)]
pub struct Color {
    /// Red channel.
    pub r: u32,
    /// Green channel.
    pub g: u32,
    /// Blue channel.
    pub b: u32,
    /// Alpha channel.
    pub a: u32,
}

/// Whether a color's alpha channel carries the binary32 value zero.
///
/// A binary32 value compares equal to zero exactly when every bit but the
/// sign bit is clear, so both the positive and the negative zero pattern
/// count as transparent.
pub open spec fn is_transparent_spec(c: Color) -> bool {
    c.a & 0x7FFF_FFFF == 0
}

/// Returns whether the color is fully transparent, that is, whether its
/// alpha channel carries the binary32 value zero (of either sign).
pub fn is_transparent(c: Color) -> (r: bool)
    ensures
        r == is_transparent_spec(c),
{
    c.a & 0x7FFF_FFFF == 0
}

/// A sub-region of a texture, in texture pixel space.
#[derive(Clone, Copy, PartialEq, Eq, Structural, Debug)]
pub struct SourceRectangle {
    /// Left edge, in pixels.
    pub x: i32,
    /// Top edge, in pixels.
    pub y: i32,
    /// Width, in pixels.
    pub w: i32,
    /// Height, in pixels.
    pub h: i32,
}

/// An axis-aligned rectangle in local drawing coordinates.
#[derive(Clone, Copy, PartialEq, Eq, Structural, Debug)]
pub struct Rectangle {
    /// Left edge.
    pub x: Scalar,
    /// Top edge.
    pub y: Scalar,
    /// Width.
    pub w: Scalar,
    /// Height.
    pub h: Scalar,
}

} // verus!
