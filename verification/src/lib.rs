//! A verified ray-tracing core over fixed-point arithmetic.
//!
//! Scenes of spheres and axis-aligned cubes are lit by point lights and
//! rendered through a look-at camera into a packed framebuffer. Every
//! geometric quantity is a 16.16 fixed-point scalar, so each executable
//! step can be pinned to an exact spec-level mirror: the intersection
//! protocols, the recursive shading engine with its depth bound, the
//! shadow scan, the camera operators and the render loop all carry
//! contracts that determine their results completely.

use vstd::prelude::*;

pub mod camera;
pub mod color;
pub mod cube;
pub mod intersect;
pub mod light;
pub mod fixed;
pub mod material;
pub mod primitive;
pub mod render;
pub mod shading;
pub mod sphere;
pub mod texture;
pub mod trig;
pub mod vec3;

verus! {

} // verus!
