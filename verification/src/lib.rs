//! A minimal 2D drawing abstraction: a transformation context, a
//! back-end-agnostic trait for issuing triangle-list draw calls, and an
//! image primitive that draws a textured quad through that trait.
//!
//! Every scalar is an IEEE 754 binary64 (or binary32) value carried as its
//! raw bit pattern, so that the geometry and the draw logic can be stated
//! and checked exactly, while the arithmetic itself is performed by a
//! software implementation of the IEEE operations.

pub mod fp;
pub mod types;
pub mod matrix;
pub mod context;
pub mod graphics;
pub mod triangulation;
pub mod image;

pub use fp::{ZERO_BITS, ONE_BITS, NEG_ONE_BITS, TWO_BITS, NEG_TWO_BITS};
pub use types::{Scalar, Color, SourceRectangle, Rectangle, is_transparent};
pub use matrix::{Matrix2d, identity, multiply};
pub use context::{Context, DrawState, Transform, ViewTransform};
pub use graphics::{BackEnd, Graphics, ImageSize};
pub use triangulation::{rect_tri_list_xy, rect_tri_list_uv, rect_tri_list_uv_dims};
pub use image::Image;
