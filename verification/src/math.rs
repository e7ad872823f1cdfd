//! Fixed vector / rectangle / matrix types used throughout the runtime.
//!
//! Every component is the bit pattern of an IEEE-754 single-precision
//! number; the bit pattern of `0.0` is `0u32`.

use vstd::prelude::*;

verus! {

/// A rectangle: position and size, as single-precision bit patterns.
#[derive(Clone, Copy, Debug, PartialEq, Eq, Structural)]
pub struct Rect {
    pub x: u32,
    pub y: u32,
    pub w: u32,
    pub h: u32,
}

impl Rect {
    /// The all-zero rectangle (position and size `0.0`).
    pub fn zero() -> (r: Rect)
        ensures
            r == (Rect { x: 0u32, y: 0u32, w: 0u32, h: 0u32 }),
    {
        Rect { x: 0, y: 0, w: 0, h: 0 }
    }
}

/// A two-component vector of single-precision bit patterns.
#[derive(Clone, Copy, Debug, PartialEq, Eq, Structural)]
pub struct Vec2 {
    pub x: u32,
    pub y: u32,
}

/// A three-component vector of single-precision bit patterns.
#[derive(Clone, Copy, Debug, PartialEq, Eq, Structural)]
pub struct Vec3 {
    pub x: u32,
    pub y: u32,
    pub z: u32,
}

/// A four-component vector of single-precision bit patterns.
#[derive(Clone, Copy, Debug, PartialEq, Eq, Structural)]
pub struct Vec4 {
    pub x: u32,
    pub y: u32,
    pub z: u32,
    pub w: u32,
}

/// An RGBA color, each channel a single-precision bit pattern.
#[derive(Clone, Copy, Debug, PartialEq, Eq, Structural)]
pub struct Color {
    pub r: u32,
    pub g: u32,
    pub b: u32,
    pub a: u32,
}

/// The bit pattern of the single-precision number `1.0`.
pub const ONE_BITS: u32 = 0x3F80_0000;

/// A 4x4 matrix, sixteen single-precision bit patterns in column-major order.
#[derive(Clone, Copy, Debug)]
pub struct Mat4 {
    pub v: [u32; 16],
}

impl Vec2 {
    /// The zero vector.
    pub fn zero() -> (r: Vec2)
        ensures
            r == (Vec2 { x: 0u32, y: 0u32 }),
    {
        Vec2 { x: 0, y: 0 }
    }
}

impl Vec3 {
    /// The zero vector.
    pub fn zero() -> (r: Vec3)
        ensures
            r == (Vec3 { x: 0u32, y: 0u32, z: 0u32 }),
    {
        Vec3 { x: 0, y: 0, z: 0 }
    }
}

impl Vec4 {
    /// The zero vector.
    pub fn zero() -> (r: Vec4)
        ensures
            r == (Vec4 { x: 0u32, y: 0u32, z: 0u32, w: 0u32 }),
    {
        Vec4 { x: 0, y: 0, z: 0, w: 0 }
    }
}

} // verus!
