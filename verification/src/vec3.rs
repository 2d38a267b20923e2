//! Three-component vectors over fixed-point scalars.
//!
//! `Vec3` is the executable value; `V3` is its spec-level image with
//! mathematical integer components. Every vector operation is pinned to a
//! spec mirror built from the scalar mirrors in [`crate::fixed`].

use vstd::prelude::*;

verus! {

use crate::fixed::fx_add;
use crate::fixed::fx_div;
use crate::fixed::fx_mul;
use crate::fixed::fx_neg;
use crate::fixed::fx_sqrt;
use crate::fixed::fx_sub;
use crate::fixed::s_add;
use crate::fixed::s_div;
use crate::fixed::s_mul;
use crate::fixed::s_neg;
use crate::fixed::s_sqrt;
use crate::fixed::s_sub;

/// Spec-level vector: the exact integer images of the three components.
pub struct V3 {
    pub x: int,
    pub y: int,
    pub z: int,
}

/// A point or direction in space, components in 16.16 fixed point.
#[derive(Clone, Copy, PartialEq, Eq, Structural, Debug)]
pub struct Vec3 {
    pub x: i64,
    pub y: i64,
    pub z: i64,
}

impl Vec3 {
    /// The spec-level image of this vector.
    pub open spec fn sv(self) -> V3 {
        V3 { x: self.x as int, y: self.y as int, z: self.z as int }
    }

    /// A vector from its three components.
    pub fn new(x: i64, y: i64, z: i64) -> (r: Vec3)
        ensures
            r.sv() == (V3 { x: x as int, y: y as int, z: z as int }),
    {
        Vec3 { x, y, z }
    }

    /// The zero vector.
    pub fn zeros() -> (r: Vec3)
        ensures
            r.sv() == (V3 { x: 0, y: 0, z: 0 }),
    {
        Vec3 { x: 0, y: 0, z: 0 }
    }
}

/// Componentwise saturating sum.
pub open spec fn s_vadd(a: V3, b: V3) -> V3 {
    V3 { x: s_add(a.x, b.x), y: s_add(a.y, b.y), z: s_add(a.z, b.z) }
}

/// Componentwise saturating difference.
pub open spec fn s_vsub(a: V3, b: V3) -> V3 {
    V3 { x: s_sub(a.x, b.x), y: s_sub(a.y, b.y), z: s_sub(a.z, b.z) }
}

/// Componentwise saturating negation.
pub open spec fn s_vneg(a: V3) -> V3 {
    V3 { x: s_neg(a.x), y: s_neg(a.y), z: s_neg(a.z) }
}

/// A vector scaled by a fixed-point factor.
pub open spec fn s_vscale(k: int, a: V3) -> V3 {
    V3 { x: s_mul(k, a.x), y: s_mul(k, a.y), z: s_mul(k, a.z) }
}

/// Dot product, accumulated left to right with saturating operations.
pub open spec fn s_vdot(a: V3, b: V3) -> int {
    s_add(s_add(s_mul(a.x, b.x), s_mul(a.y, b.y)), s_mul(a.z, b.z))
}

/// Cross product, each component a saturating difference of products.
pub open spec fn s_vcross(a: V3, b: V3) -> V3 {
    V3 {
        x: s_sub(s_mul(a.y, b.z), s_mul(a.z, b.y)),
        y: s_sub(s_mul(a.z, b.x), s_mul(a.x, b.z)),
        z: s_sub(s_mul(a.x, b.y), s_mul(a.y, b.x)),
    }
}

/// Euclidean length: the fixed-point square root of the dot square.
pub open spec fn s_vnorm(a: V3) -> int {
    s_sqrt(s_vdot(a, a))
}

/// A vector brought to unit length by dividing each component by the
/// length. A vector of zero length is returned unchanged: the geometric
/// routines treat that as the deterministic fallback for a degenerate
/// direction.
pub open spec fn s_vnormalize(a: V3) -> V3 {
    let n = s_vnorm(a);
    if n == 0 {
        a
    } else {
        V3 { x: s_div(a.x, n), y: s_div(a.y, n), z: s_div(a.z, n) }
    }
}

/// Componentwise saturating sum.
pub fn v_add(a: &Vec3, b: &Vec3) -> (r: Vec3)
    ensures
        r.sv() == s_vadd(a.sv(), b.sv()),
{
    Vec3 { x: fx_add(a.x, b.x), y: fx_add(a.y, b.y), z: fx_add(a.z, b.z) }
}

/// Componentwise saturating difference.
pub fn v_sub(a: &Vec3, b: &Vec3) -> (r: Vec3)
    ensures
        r.sv() == s_vsub(a.sv(), b.sv()),
{
    Vec3 { x: fx_sub(a.x, b.x), y: fx_sub(a.y, b.y), z: fx_sub(a.z, b.z) }
}

/// Componentwise saturating negation.
pub fn v_neg(a: &Vec3) -> (r: Vec3)
    ensures
        r.sv() == s_vneg(a.sv()),
{
    Vec3 { x: fx_neg(a.x), y: fx_neg(a.y), z: fx_neg(a.z) }
}

/// A vector scaled by a fixed-point factor.
pub fn v_scale(k: i64, a: &Vec3) -> (r: Vec3)
    ensures
        r.sv() == s_vscale(k as int, a.sv()),
{
    Vec3 { x: fx_mul(k, a.x), y: fx_mul(k, a.y), z: fx_mul(k, a.z) }
}

/// Dot product.
pub fn v_dot(a: &Vec3, b: &Vec3) -> (r: i64)
    ensures
        r as int == s_vdot(a.sv(), b.sv()),
{
    fx_add(fx_add(fx_mul(a.x, b.x), fx_mul(a.y, b.y)), fx_mul(a.z, b.z))
}

/// Cross product.
pub fn v_cross(a: &Vec3, b: &Vec3) -> (r: Vec3)
    ensures
        r.sv() == s_vcross(a.sv(), b.sv()),
{
    Vec3 {
        x: fx_sub(fx_mul(a.y, b.z), fx_mul(a.z, b.y)),
        y: fx_sub(fx_mul(a.z, b.x), fx_mul(a.x, b.z)),
        z: fx_sub(fx_mul(a.x, b.y), fx_mul(a.y, b.x)),
    }
}

/// Euclidean length.
pub fn v_norm(a: &Vec3) -> (r: i64)
    ensures
        r as int == s_vnorm(a.sv()),
        r >= 0,
{
    fx_sqrt(v_dot(a, a))
}

/// A vector brought to unit length, with the zero vector unchanged.
pub fn v_normalize(a: &Vec3) -> (r: Vec3)
    ensures
        r.sv() == s_vnormalize(a.sv()),
{
    let n = v_norm(a);
    if n == 0 {
        *a
    } else {
        Vec3 { x: fx_div(a.x, n), y: fx_div(a.y, n), z: fx_div(a.z, n) }
    }
}
} // verus!
