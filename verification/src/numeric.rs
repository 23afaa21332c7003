//! Carriers for the real-valued data that flows through the pipeline.
//!
//! Every component is the IEEE 754 single-precision bit pattern of the value
//! it stands for, stored in a `u32`. The library moves these words around
//! and orders them; it never does arithmetic on them.

use vstd::prelude::*;

verus! {

/// Bit pattern of zero.
pub const ZERO: u32 = 0;

/// Bit pattern of one.
pub const ONE: u32 = 0x3F80_0000;

/// Bit pattern of minus one.
pub const MINUS_ONE: u32 = 0xBF80_0000;

/// Bit pattern of positive infinity, the largest pattern that compares
/// greater than zero.
pub const INFINITY: u32 = 0x7F80_0000;

/// Whether the number with this bit pattern is greater than zero: the sign
/// bit is clear, the magnitude is not zero and the pattern is not a NaN.
pub open spec fn is_positive(bits: u32) -> bool {
    0 < bits <= INFINITY
}

/// Decides [`is_positive`].
pub fn positive(bits: u32) -> (r: bool)
    ensures
        r == is_positive(bits),
{
    0 < bits && bits <= INFINITY
}

/// A pair of reals, such as a texture coordinate.
#[derive(Clone, Copy, Debug, PartialEq, Eq)]
pub struct Vec2 {
    pub x: u32,
    pub y: u32,
}

/// A triple of reals: a point, a direction, a scaling or a color.
#[derive(Clone, Copy, Debug, PartialEq, Eq)]
pub struct Vec3 {
    pub x: u32,
    pub y: u32,
    pub z: u32,
}

/// Four reals, such as a tangent with its handedness.
#[derive(Clone, Copy, Debug, PartialEq, Eq)]
pub struct Vec4 {
    pub x: u32,
    pub y: u32,
    pub z: u32,
    pub w: u32,
}

/// A 4x4 matrix in column-major order: `m[4 * column + row]`.
#[derive(Clone, Copy, Debug, PartialEq, Eq)]
pub struct Mat4 {
    pub m: [u32; 16],
}

impl Vec2 {
    pub fn new(x: u32, y: u32) -> (v: Vec2)
        ensures
            v == (Vec2 { x, y }),
    {
        Vec2 { x, y }
    }
}

impl Vec3 {
    pub fn new(x: u32, y: u32, z: u32) -> (v: Vec3)
        ensures
            v == (Vec3 { x, y, z }),
    {
        Vec3 { x, y, z }
    }

    /// The vector whose three components are `bits`.
    pub fn splat(bits: u32) -> (v: Vec3)
        ensures
            v == (Vec3 { x: bits, y: bits, z: bits }),
    {
        Vec3 { x: bits, y: bits, z: bits }
    }

    /// Every component is greater than zero.
    pub open spec fn is_positive(self) -> bool {
        &&& is_positive(self.x)
        &&& is_positive(self.y)
        &&& is_positive(self.z)
    }

    /// Decides [`Vec3::is_positive`].
    pub fn positive(&self) -> (r: bool)
        ensures
            r == self.is_positive(),
    {
        positive(self.x) && positive(self.y) && positive(self.z)
    }
}

impl Vec4 {
    pub fn new(x: u32, y: u32, z: u32, w: u32) -> (v: Vec4)
        ensures
            v == (Vec4 { x, y, z, w }),
    {
        Vec4 { x, y, z, w }
    }
}

impl Mat4 {
    pub fn new(m: [u32; 16]) -> (r: Mat4)
        ensures
            r == (Mat4 { m }),
    {
        Mat4 { m }
    }
}

} // verus!
