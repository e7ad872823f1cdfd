//! Arithmetic and comparison on single-precision bit patterns.
//!
//! The runtime stores every GPU-bound scalar as the bit pattern of an
//! IEEE-754 single-precision number. The few places that compute on such
//! scalars (translating a rectangle, advancing a pen position, hit-testing)
//! do so through the functions here, which delegate the IEEE-754 semantics
//! to `rustc_apfloat`.

use vstd::prelude::*;

use rustc_apfloat::Float;

verus! {

/// The bit pattern of the IEEE-754 single-precision sum of the numbers
/// with bit patterns `a` and `b` (round to nearest, ties to even).
pub uninterp spec fn add_bits(a: u32, b: u32) -> u32;

/// The bit pattern of the IEEE-754 single-precision product of the numbers
/// with bit patterns `a` and `b` (round to nearest, ties to even).
pub uninterp spec fn mul_bits(a: u32, b: u32) -> u32;

/// Whether the IEEE-754 single-precision number with bit pattern `a`
/// compares less than or equal to the one with bit pattern `b`
/// (false whenever either is a NaN).
pub uninterp spec fn le_bits(a: u32, b: u32) -> bool;

/// Relies on `rustc_apfloat::ieee::Single`'s `Add` impl: IEEE-754
/// single-precision addition, rounding to nearest/ties-to-even, a
/// deterministic function of the two bit patterns alone.
#[verifier::external_body]
pub(crate) fn add(a: u32, b: u32) -> (r: u32)
    ensures
        r == add_bits(a, b),
{
    let x = rustc_apfloat::ieee::Single::from_bits(a as u128);
    let y = rustc_apfloat::ieee::Single::from_bits(b as u128);
    (x + y).value.to_bits() as u32
}

/// Relies on `rustc_apfloat::ieee::Single`'s `Mul` impl: IEEE-754
/// single-precision multiplication, rounding to nearest/ties-to-even, a
/// deterministic function of the two bit patterns alone.
#[verifier::external_body]
pub(crate) fn mul(a: u32, b: u32) -> (r: u32)
    ensures
        r == mul_bits(a, b),
{
    let x = rustc_apfloat::ieee::Single::from_bits(a as u128);
    let y = rustc_apfloat::ieee::Single::from_bits(b as u128);
    (x * y).value.to_bits() as u32
}

/// Relies on `rustc_apfloat::ieee::Single`'s `PartialOrd` impl: the IEEE-754
/// ordering of single-precision numbers, in which every comparison against
/// a NaN is false; a deterministic function of the two bit patterns alone.
#[verifier::external_body]
pub(crate) fn le(a: u32, b: u32) -> (r: bool)
    ensures
        r == le_bits(a, b),
{
    let x = rustc_apfloat::ieee::Single::from_bits(a as u128);
    let y = rustc_apfloat::ieee::Single::from_bits(b as u128);
    x <= y
}

} // verus!
