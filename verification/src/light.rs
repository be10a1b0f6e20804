//! The lighting model's data: one directional light and point lights, laid
//! out as the shading pipeline reads them.

use crate::words::{Words3, Words4, ONE, ZERO};
use vstd::prelude::*;

verus! {

/// Linear attenuation of a new point light; reads as `0.09`.
pub const DEFAULT_LINEAR: u32 = 0x3DB8_51EC;

/// Quadratic attenuation of a new point light; reads as `0.032`.
pub const DEFAULT_QUADRATIC: u32 = 0x3D03_126F;

/// A light that shines from one direction everywhere.
#[derive(Clone, Copy, Debug, PartialEq, Eq)]
pub struct DirLight {
    pub ambient: Words4,
    pub diffuse: Words4,
    pub specular: Words4,
    /// Stored as given; whoever shades with it brings it to unit length.
    pub dir: Words4,
}

/// A light at a position whose intensity falls off with distance.
#[derive(Clone, Copy, Debug, PartialEq, Eq)]
pub struct PointLight {
    pub ambient: Words4,
    pub diffuse: Words4,
    pub specular: Words4,
    pub pos: Words4,
    /// Constant attenuation.
    pub a0: u32,
    /// Linear attenuation.
    pub a1: u32,
    /// Quadratic attenuation.
    pub a2: u32,
    /// Fills the light to a multiple of four words.
    pub pad: u32,
}

impl DirLight {
    /// The light that `new` makes: each colour gets a fourth word that reads
    /// as one, the direction a fourth word that reads as zero.
    pub open spec fn made(ambient: Words3, diffuse: Words3, specular: Words3, dir: Words3)
        -> DirLight {
        DirLight {
            ambient: ambient.extended(ONE),
            diffuse: diffuse.extended(ONE),
            specular: specular.extended(ONE),
            dir: dir.extended(ZERO),
        }
    }

    /// The light of which every word is zero.
    pub open spec fn unlit() -> DirLight {
        DirLight {
            ambient: Words4::zero(),
            diffuse: Words4::zero(),
            specular: Words4::zero(),
            dir: Words4::zero(),
        }
    }

    pub fn new(ambient: Words3, diffuse: Words3, specular: Words3, dir: Words3) -> (light:
        DirLight)
        ensures
            light == DirLight::made(ambient, diffuse, specular, dir),
    {
        DirLight {
            ambient: ambient.extend(ONE),
            diffuse: diffuse.extend(ONE),
            specular: specular.extend(ONE),
            dir: dir.extend(ZERO),
        }
    }

    pub fn dark() -> (light: DirLight)
        ensures
            light == DirLight::unlit(),
    {
        let zero = Words4 { x: ZERO, y: ZERO, z: ZERO, w: ZERO };
        DirLight { ambient: zero, diffuse: zero, specular: zero, dir: zero }
    }
}

impl PointLight {
    /// The light that `new` makes: colours and position get a fourth word
    /// that reads as one, and the attenuation is that of a light which
    /// reaches about fifty world units.
    pub open spec fn made(ambient: Words3, diffuse: Words3, specular: Words3, pos: Words3)
        -> PointLight {
        PointLight {
            ambient: ambient.extended(ONE),
            diffuse: diffuse.extended(ONE),
            specular: specular.extended(ONE),
            pos: pos.extended(ONE),
            a0: ONE,
            a1: DEFAULT_LINEAR,
            a2: DEFAULT_QUADRATIC,
            pad: ZERO,
        }
    }

    /// The light of which every word is zero: it adds nothing to a shaded
    /// point.
    pub open spec fn unlit() -> PointLight {
        PointLight {
            ambient: Words4::zero(),
            diffuse: Words4::zero(),
            specular: Words4::zero(),
            pos: Words4::zero(),
            a0: ZERO,
            a1: ZERO,
            a2: ZERO,
            pad: ZERO,
        }
    }

    /// This light with other attenuation coefficients.
    pub open spec fn attenuated(self, a0: u32, a1: u32, a2: u32) -> PointLight {
        PointLight { a0, a1, a2, ..self }
    }

    pub fn new(ambient: Words3, diffuse: Words3, specular: Words3, pos: Words3) -> (light:
        PointLight)
        ensures
            light == PointLight::made(ambient, diffuse, specular, pos),
    {
        PointLight {
            ambient: ambient.extend(ONE),
            diffuse: diffuse.extend(ONE),
            specular: specular.extend(ONE),
            pos: pos.extend(ONE),
            a0: ONE,
            a1: DEFAULT_LINEAR,
            a2: DEFAULT_QUADRATIC,
            pad: ZERO,
        }
    }

    /// Replaces the constant, linear and quadratic attenuation.
    pub fn with_attenuation(self, a0: u32, a1: u32, a2: u32) -> (light: PointLight)
        ensures
            light == self.attenuated(a0, a1, a2),
    {
        PointLight { a0, a1, a2, ..self }
    }

    pub fn dark() -> (light: PointLight)
        ensures
            light == PointLight::unlit(),
    {
        let zero = Words4 { x: ZERO, y: ZERO, z: ZERO, w: ZERO };
        PointLight {
            ambient: zero,
            diffuse: zero,
            specular: zero,
            pos: zero,
            a0: ZERO,
            a1: ZERO,
            a2: ZERO,
            pad: ZERO,
        }
    }
}

} // verus!
