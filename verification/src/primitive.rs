//! The closed set of scene primitives.
//!
//! The primitive set is fixed, so dispatch is a tagged enum rather than an
//! open trait object: the scene is an ordered `Vec<Primitive>` and every
//! intersection resolves statically.

use vstd::prelude::*;

verus! {

use crate::cube::Cube;
use crate::cube::s_cube_intersect;
use crate::intersect::Intersect;
use crate::intersect::RayIntersect;
use crate::intersect::SHit;
use crate::sphere::Sphere;
use crate::sphere::s_sphere_intersect;
use crate::vec3::V3;
use crate::vec3::Vec3;

/// A scene primitive: a sphere or an axis-aligned cube.
#[derive(Clone, Debug)]
pub enum Primitive {
    Sphere(Sphere),
    Cube(Cube),
}

/// What a ray finds on a primitive: the variant's own intersection
/// protocol.
pub open spec fn s_primitive_intersect(p: Primitive, o: V3, d: V3) -> SHit {
    match p {
        Primitive::Sphere(s) => s_sphere_intersect(s, o, d),
        Primitive::Cube(c) => s_cube_intersect(c, o, d),
    }
}

impl Primitive {
    /// Well-formedness: the variant's materials are well formed.
    pub open spec fn wf(self) -> bool {
        match self {
            Primitive::Sphere(s) => s.wf(),
            Primitive::Cube(c) => c.wf(),
        }
    }
}

impl RayIntersect for Primitive {
    /// Dispatch to the variant's own intersection protocol.
    fn ray_intersect(&self, ray_origin: &Vec3, ray_direction: &Vec3) -> (r: Intersect)
        ensures
            r.sv() == s_primitive_intersect(*self, ray_origin.sv(), ray_direction.sv()),
            self.wf() ==> r.wf(),
    {
        match self {
            Primitive::Sphere(s) => s.ray_intersect(ray_origin, ray_direction),
            Primitive::Cube(c) => c.ray_intersect(ray_origin, ray_direction),
        }
    }
}

} // verus!
