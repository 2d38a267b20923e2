//! The intersection record handed back by every primitive, and the
//! intersection capability itself.

use vstd::prelude::*;

verus! {

use crate::fixed::FX_ONE;
use crate::material::Material;
use crate::material::SMaterial;
use crate::material::s_black_material;
use crate::vec3::V3;
use crate::vec3::Vec3;

/// Spec-level intersection record.
pub struct SHit {
    pub point: V3,
    pub normal: V3,
    pub distance: int,
    pub hit: bool,
    pub material: SMaterial,
    pub u: int,
    pub v: int,
}

/// What a ray found: where it struck, the outward surface normal there,
/// the parametric distance, the struck material (an owned copy) and the
/// surface coordinates. A non-hit carries the all-absorbing material and
/// distance zero; callers must consult `is_intersecting` before trusting
/// the rest.
#[derive(Clone, Debug)]
pub struct Intersect {
    pub point: Vec3,
    pub normal: Vec3,
    pub distance: i64,
    pub is_intersecting: bool,
    pub material: Material,
    pub u: i64,
    pub v: i64,
}

/// Spec image of the empty record.
pub open spec fn s_empty_hit() -> SHit {
    SHit {
        point: (V3 { x: 0, y: 0, z: 0 }),
        normal: (V3 { x: 0, y: 0, z: 0 }),
        distance: 0,
        hit: false,
        material: s_black_material(),
        u: 0,
        v: 0,
    }
}

impl Intersect {
    /// Well-formedness: the carried material is well formed.
    pub open spec fn wf(self) -> bool {
        self.material.wf()
    }

    /// The spec-level image of this record.
    pub open spec fn sv(self) -> SHit {
        SHit {
            point: self.point.sv(),
            normal: self.normal.sv(),
            distance: self.distance as int,
            hit: self.is_intersecting,
            material: self.material.sv(),
            u: self.u as int,
            v: self.v as int,
        }
    }

    /// A hit record from its parts.
    pub fn new(point: Vec3, normal: Vec3, distance: i64, material: Material, u: i64, v: i64) -> (r:
        Intersect)
        ensures
            r.sv() == (SHit {
                point: point.sv(),
                normal: normal.sv(),
                distance: distance as int,
                hit: true,
                material: material.sv(),
                u: u as int,
                v: v as int,
            }),
            r.wf() <==> material.wf(),
    {
        Intersect { point, normal, distance, is_intersecting: true, material, u, v }
    }

    /// The empty record: no intersection.
    pub fn empty() -> (r: Intersect)
        ensures
            r.sv() == s_empty_hit(),
            r.wf(),
    {
        Intersect {
            point: Vec3::zeros(),
            normal: Vec3::zeros(),
            distance: 0,
            is_intersecting: false,
            material: Material::black(),
            u: 0,
            v: 0,
        }
    }
}

/// The capability every primitive offers: cast a ray from an origin along
/// a direction and report what it struck. The direction need not be unit
/// length; each implementation's own contract pins its result.
pub trait RayIntersect {
    fn ray_intersect(&self, ray_origin: &Vec3, ray_direction: &Vec3) -> Intersect;
}

} // verus!
