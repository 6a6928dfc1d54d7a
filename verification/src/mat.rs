//! Vectors and matrices of 32-bit float bit patterns.
//!
//! The gatherers never do floating-point arithmetic of their own: every
//! scalar that flows through them is carried as the raw bit pattern of a
//! 32-bit IEEE 754 float, stored in a `u32`. The caller converts between
//! its native float types and these bit words at the boundary.

use vstd::prelude::*;

verus! {

/// Bit pattern of the 32-bit float value one.
pub const F32_ONE_BITS: u32 = 0x3F80_0000;

/// Bit pattern of the 32-bit float value minus one.
pub const F32_NEG_ONE_BITS: u32 = 0xBF80_0000;

/// A three-component vector of 32-bit float bit patterns.
#[derive(Clone, Copy, PartialEq, Eq, Structural, Debug)]
pub struct Vec3 {
    pub x: u32,
    pub y: u32,
    pub z: u32,
}

/// A four-component vector of 32-bit float bit patterns.
#[derive(Clone, Copy, PartialEq, Eq, Structural, Debug)]
pub struct Vec4 {
    pub x: u32,
    pub y: u32,
    pub z: u32,
    pub w: u32,
}

/// A 4x4 matrix of 32-bit float bit patterns, stored as four columns.
///
/// For a homogeneous world transform the fourth column `c3` holds the
/// translation in its first three components.
#[derive(Clone, Copy, PartialEq, Eq, Structural, Debug)]
pub struct Mat4 {
    pub c0: Vec4,
    pub c1: Vec4,
    pub c2: Vec4,
    pub c3: Vec4,
}

/// The all-zero three-component vector (the bit pattern of 0.0 is 0).
pub open spec fn vec3_zero() -> Vec3 {
    Vec3 { x: 0, y: 0, z: 0 }
}

/// The identity matrix: float one on the diagonal, float zero elsewhere.
pub open spec fn mat4_identity() -> Mat4 {
    Mat4 {
        c0: Vec4 { x: F32_ONE_BITS, y: 0, z: 0, w: 0 },
        c1: Vec4 { x: 0, y: F32_ONE_BITS, z: 0, w: 0 },
        c2: Vec4 { x: 0, y: 0, z: F32_ONE_BITS, w: 0 },
        c3: Vec4 { x: 0, y: 0, z: 0, w: F32_ONE_BITS },
    }
}

/// The translation part of a homogeneous transform: the first three
/// components of its fourth column.
pub open spec fn translation_of(m: Mat4) -> Vec3 {
    Vec3 { x: m.c3.x, y: m.c3.y, z: m.c3.z }
}

impl Mat4 {
    /// The identity transform.
    pub fn identity() -> (m: Mat4)
        ensures
            m == mat4_identity(),
    {
        Mat4 {
            c0: Vec4 { x: F32_ONE_BITS, y: 0, z: 0, w: 0 },
            c1: Vec4 { x: 0, y: F32_ONE_BITS, z: 0, w: 0 },
            c2: Vec4 { x: 0, y: 0, z: F32_ONE_BITS, w: 0 },
            c3: Vec4 { x: 0, y: 0, z: 0, w: F32_ONE_BITS },
        }
    }

    /// The translation column of a world transform, as a three-vector.
    pub fn translation(&self) -> (t: Vec3)
        ensures
            t == translation_of(*self),
    {
        Vec3 { x: self.c3.x, y: self.c3.y, z: self.c3.z }
    }
}

} // verus!
