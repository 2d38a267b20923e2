//! Point lights: a position, a color, and a scalar intensity.

use vstd::prelude::*;

verus! {

use crate::color::Color;
use crate::vec3::V3;
use crate::vec3::Vec3;

/// Spec-level light.
pub struct SLight {
    pub position: V3,
    pub color: Color,
    pub intensity: int,
}

/// A point light. An intensity at or below the engine's ambient threshold
/// marks the light as an ambient contribution, shaded without shadows or
/// speculars.
#[derive(Clone, Copy, PartialEq, Eq, Structural, Debug)]
pub struct Light {
    pub position: Vec3,
    pub color: Color,
    pub intensity: i64,
}

impl Light {
    /// The spec-level image of this light.
    pub open spec fn sv(self) -> SLight {
        SLight {
            position: self.position.sv(),
            color: self.color,
            intensity: self.intensity as int,
        }
    }

    /// A light from its parts.
    pub fn new(position: Vec3, color: Color, intensity: i64) -> (l: Light)
        ensures
            l.sv() == (SLight { position: position.sv(), color, intensity: intensity as int }),
    {
        Light { position, color, intensity }
    }
}

} // verus!
