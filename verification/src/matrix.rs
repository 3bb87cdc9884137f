//! 2×3 affine transform matrices over binary64 bit patterns.

use vstd::prelude::*;
use crate::fp::{sum64, prod64, add64, mul64, ZERO_BITS, ONE_BITS};
use crate::types::Scalar;

verus! {

/// A 2×3 affine transform: two rows of a linear part plus a translation
/// column, in row-major order. `mIJ` is the entry of row `I`, column `J`;
/// column 2 is the translation. Each entry is a binary64 bit pattern.
#[derive(Clone, Copy, PartialEq, Eq, Structural, Debug)]
pub struct Matrix2d {
    /// Row 0, column 0.
    pub m00: Scalar,
    /// Row 0, column 1.
    pub m01: Scalar,
    /// Row 0, column 2 (x translation).
    pub m02: Scalar,
    /// Row 1, column 0.
    pub m10: Scalar,
    /// Row 1, column 1.
    pub m11: Scalar,
    /// Row 1, column 2 (y translation).
    pub m12: Scalar,
}

/// The identity affine transform.
pub open spec fn mat_id() -> Matrix2d {
    Matrix2d {
        m00: ONE_BITS,
        m01: ZERO_BITS,
        m02: ZERO_BITS,
        m10: ZERO_BITS,
        m11: ONE_BITS,
        m12: ZERO_BITS,
    }
}

/// The translation by `(tx, ty)`.
pub open spec fn trans_mat(tx: Scalar, ty: Scalar) -> Matrix2d {
    Matrix2d {
        m00: ONE_BITS,
        m01: ZERO_BITS,
        m02: tx,
        m10: ZERO_BITS,
        m11: ONE_BITS,
        m12: ty,
    }
}

/// The scaling by `(sx, sy)`.
pub open spec fn scale_mat(sx: Scalar, sy: Scalar) -> Matrix2d {
    Matrix2d {
        m00: sx,
        m01: ZERO_BITS,
        m02: ZERO_BITS,
        m10: ZERO_BITS,
        m11: sy,
        m12: ZERO_BITS,
    }
}

/// The composition `a ∘ b` of two affine transforms, treating each as a
/// 3×3 matrix whose implicit last row is `[0, 0, 1]`. Each entry is the
/// left-associated sum of binary64 products.
pub open spec fn mat_mul(a: Matrix2d, b: Matrix2d) -> Matrix2d {
    Matrix2d {
        m00: sum64(prod64(a.m00, b.m00), prod64(a.m01, b.m10)),
        m01: sum64(prod64(a.m00, b.m01), prod64(a.m01, b.m11)),
        m02: sum64(sum64(prod64(a.m00, b.m02), prod64(a.m01, b.m12)), a.m02),
        m10: sum64(prod64(a.m10, b.m00), prod64(a.m11, b.m10)),
        m11: sum64(prod64(a.m10, b.m01), prod64(a.m11, b.m11)),
        m12: sum64(sum64(prod64(a.m10, b.m02), prod64(a.m11, b.m12)), a.m12),
    }
}

/// Returns the identity affine transform.
pub fn identity() -> (r: Matrix2d)
    ensures
        r == mat_id(),
{
    Matrix2d {
        m00: ONE_BITS,
        m01: ZERO_BITS,
        m02: ZERO_BITS,
        m10: ZERO_BITS,
        m11: ONE_BITS,
        m12: ZERO_BITS,
    }
}

/// Returns the composition `a ∘ b` of two affine transforms: applying the
/// result to a point gives the same bits as applying `b`, then `a`, would
/// in exact arithmetic, with every entry computed as a left-associated
/// sum of binary64 products.
pub fn multiply(a: Matrix2d, b: Matrix2d) -> (r: Matrix2d)
    ensures
        r == mat_mul(a, b),
{
    Matrix2d {
        m00: add64(mul64(a.m00, b.m00), mul64(a.m01, b.m10)),
        m01: add64(mul64(a.m00, b.m01), mul64(a.m01, b.m11)),
        m02: add64(add64(mul64(a.m00, b.m02), mul64(a.m01, b.m12)), a.m02),
        m10: add64(mul64(a.m10, b.m00), mul64(a.m11, b.m10)),
        m11: add64(mul64(a.m10, b.m01), mul64(a.m11, b.m11)),
        m12: add64(add64(mul64(a.m10, b.m02), mul64(a.m11, b.m12)), a.m12),
    }
}

} // verus!
