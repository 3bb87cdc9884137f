//! Scalar arithmetic on IEEE 754 bit patterns.
//!
//! Every binary64 scalar of this crate is carried as its raw `u64` bit
//! pattern, and every binary32 scalar as its raw `u32` bit pattern. The
//! arithmetic itself is performed by `rustc_apfloat`, a software
//! implementation of the IEEE 754 operations that works directly on bit
//! patterns and is a deterministic function of its operands on every
//! machine. Each operation is named by an uninterpreted spec function, so
//! that the geometry built on top of it can be pinned down exactly.

use vstd::prelude::*;
use rustc_apfloat::Float;
use rustc_apfloat::ieee::Double;
use rustc_apfloat::ieee::Single;

verus! {

/// Bit pattern of the binary64 value zero.
pub const ZERO_BITS: u64 = 0x0000_0000_0000_0000;
/// Bit pattern of the binary64 value one.
pub const ONE_BITS: u64 = 0x3FF0_0000_0000_0000;
/// Bit pattern of the binary64 value minus one.
pub const NEG_ONE_BITS: u64 = 0xBFF0_0000_0000_0000;
/// Bit pattern of the binary64 value two.
pub const TWO_BITS: u64 = 0x4000_0000_0000_0000;
/// Bit pattern of the binary64 value minus two.
pub const NEG_TWO_BITS: u64 = 0xC000_0000_0000_0000;

/// The binary64 sum of the values carried by two bit patterns.
pub uninterp spec fn sum64(a: u64, b: u64) -> u64;

/// The binary64 product of the values carried by two bit patterns.
pub uninterp spec fn prod64(a: u64, b: u64) -> u64;

/// The binary64 quotient of the values carried by two bit patterns.
pub uninterp spec fn quot64(a: u64, b: u64) -> u64;

/// The binary64 value nearest to a 32-bit signed integer (always exact,
/// since every such integer is representable in binary64).
pub uninterp spec fn dbl_of_i32(i: i32) -> u64;

/// The binary32 value nearest to a 64-bit signed integer.
pub uninterp spec fn sgl_of_i64(i: i64) -> u32;

/// The binary32 value nearest to a 32-bit unsigned integer.
pub uninterp spec fn sgl_of_u32(w: u32) -> u32;

/// The binary32 quotient of the values carried by two bit patterns.
pub uninterp spec fn quot32(a: u32, b: u32) -> u32;

/// Relies on `rustc_apfloat::ieee::Double`'s `Add` impl: IEEE 754 binary64
/// addition (round to nearest, ties to even) on the carried bit patterns,
/// a function of the two operands alone.
#[verifier::external_body]
pub(crate) fn add64(a: u64, b: u64) -> (r: u64)
    ensures
        r == sum64(a, b),
{
    let x = Double::from_bits(a as u128);
    let y = Double::from_bits(b as u128);
    (x + y).value.to_bits() as u64
}

/// Relies on `rustc_apfloat::ieee::Double`'s `Mul` impl: IEEE 754 binary64
/// multiplication on the carried bit patterns, a function of the two
/// operands alone.
#[verifier::external_body]
pub(crate) fn mul64(a: u64, b: u64) -> (r: u64)
    ensures
        r == prod64(a, b),
{
    let x = Double::from_bits(a as u128);
    let y = Double::from_bits(b as u128);
    (x * y).value.to_bits() as u64
}

/// Relies on `rustc_apfloat::ieee::Double`'s `Div` impl: IEEE 754 binary64
/// division on the carried bit patterns, a function of the two operands
/// alone (division by zero yields an infinity, never a panic).
#[verifier::external_body]
pub(crate) fn div64(a: u64, b: u64) -> (r: u64)
    ensures
        r == quot64(a, b),
{
    let x = Double::from_bits(a as u128);
    let y = Double::from_bits(b as u128);
    (x / y).value.to_bits() as u64
}

/// Relies on `rustc_apfloat::Float::from_i128` for `Double`: the binary64
/// value of a signed integer, a function of the integer alone.
#[verifier::external_body]
pub(crate) fn int_to_dbl(i: i32) -> (r: u64)
    ensures
        r == dbl_of_i32(i),
{
    Double::from_i128(i as i128).value.to_bits() as u64
}

/// Relies on `rustc_apfloat::Float::from_i128` for `Single`: the binary32
/// value nearest to a signed integer, a function of the integer alone.
#[verifier::external_body]
pub(crate) fn int_to_sgl(i: i64) -> (r: u32)
    ensures
        r == sgl_of_i64(i),
{
    Single::from_i128(i as i128).value.to_bits() as u32
}

/// Relies on `rustc_apfloat::Float::from_u128` for `Single`: the binary32
/// value nearest to an unsigned integer, a function of the integer alone.
#[verifier::external_body]
pub(crate) fn dim_to_sgl(w: u32) -> (r: u32)
    ensures
        r == sgl_of_u32(w),
{
    Single::from_u128(w as u128).value.to_bits() as u32
}

/// Relies on `rustc_apfloat::ieee::Single`'s `Div` impl: IEEE 754 binary32
/// division on the carried bit patterns, a function of the two operands
/// alone (division by zero yields an infinity, never a panic).
#[verifier::external_body]
pub(crate) fn div32(a: u32, b: u32) -> (r: u32)
    ensures
        r == quot32(a, b),
{
    let x = Single::from_bits(a as u128);
    let y = Single::from_bits(b as u128);
    (x / y).value.to_bits() as u32
}

} // verus!
