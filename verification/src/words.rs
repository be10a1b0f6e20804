//! Data that only travels to the GPU.
//!
//! Colours, directions and matrices are never computed with here, only
//! arranged and stored. They are kept as the 32-bit words the GPU reads:
//! each word is the bit pattern of an IEEE-754 single.

use vstd::prelude::*;

verus! {

/// The word that reads as `1.0`.
pub const ONE: u32 = 0x3F80_0000;

/// The word that reads as `0.0`.
pub const ZERO: u32 = 0;

/// The word that reads as positive infinity. Every positive number has a
/// word between one and this one; the words above it, and those with the
/// highest bit set, read as no number or as a negative one.
pub const INFINITY: u32 = 0x7F80_0000;

/// Whether `word` reads as a number greater than zero, infinity included.
pub open spec fn is_positive(word: u32) -> bool {
    0 < word <= INFINITY
}

pub fn check_positive(word: u32) -> (ok: bool)
    ensures
        ok == is_positive(word),
{
    0 < word && word <= INFINITY
}

#[derive(Clone, Copy, Debug, PartialEq, Eq)]
pub struct Words2 {
    pub x: u32,
    pub y: u32,
}

#[derive(Clone, Copy, Debug, PartialEq, Eq)]
pub struct Words3 {
    pub x: u32,
    pub y: u32,
    pub z: u32,
}

#[derive(Clone, Copy, Debug, PartialEq, Eq)]
pub struct Words4 {
    pub x: u32,
    pub y: u32,
    pub z: u32,
    pub w: u32,
}

/// A 4x4 matrix, column by column.
#[derive(Clone, Copy, Debug, PartialEq, Eq)]
pub struct Mat4 {
    pub c0: Words4,
    pub c1: Words4,
    pub c2: Words4,
    pub c3: Words4,
}

impl Words3 {
    /// The three words followed by `w`.
    pub open spec fn extended(self, w: u32) -> Words4 {
        Words4 { x: self.x, y: self.y, z: self.z, w }
    }

    pub fn extend(self, w: u32) -> (r: Words4)
        ensures
            r == self.extended(w),
    {
        Words4 { x: self.x, y: self.y, z: self.z, w }
    }
}

impl Words4 {
    pub open spec fn zero() -> Words4 {
        Words4 { x: ZERO, y: ZERO, z: ZERO, w: ZERO }
    }
}

impl Mat4 {
    /// The matrix of zeros.
    pub open spec fn zero() -> Mat4 {
        Mat4 { c0: Words4::zero(), c1: Words4::zero(), c2: Words4::zero(), c3: Words4::zero() }
    }

    pub fn zeroed() -> (m: Mat4)
        ensures
            m == Mat4::zero(),
    {
        let c = Words4 { x: ZERO, y: ZERO, z: ZERO, w: ZERO };
        Mat4 { c0: c, c1: c, c2: c, c3: c }
    }
}

} // verus!
