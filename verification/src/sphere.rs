//! Spheres: quadratic ray intersection and spherical surface coordinates.

use vstd::prelude::*;

verus! {

use crate::fixed::FX_FOUR;
use crate::fixed::FX_HALF;
use crate::fixed::FX_PI;
use crate::fixed::FX_TWO;
use crate::fixed::FX_TWO_PI;
use crate::fixed::fx_add;
use crate::fixed::fx_div;
use crate::fixed::fx_mul;
use crate::fixed::fx_neg;
use crate::fixed::fx_sqrt;
use crate::fixed::fx_sub;
use crate::fixed::s_add;
use crate::fixed::s_div;
use crate::fixed::s_mul;
use crate::fixed::s_neg;
use crate::fixed::s_sqrt;
use crate::fixed::s_sub;
use crate::intersect::Intersect;
use crate::intersect::RayIntersect;
use crate::intersect::SHit;
use crate::intersect::s_empty_hit;
use crate::material::Material;
use crate::trig::fx_asin;
use crate::trig::fx_atan2;
use crate::trig::s_asin;
use crate::trig::s_atan2;
use crate::vec3::V3;
use crate::vec3::Vec3;
use crate::vec3::s_vadd;
use crate::vec3::s_vdot;
use crate::vec3::s_vnormalize;
use crate::vec3::s_vscale;
use crate::vec3::s_vsub;
use crate::vec3::v_add;
use crate::vec3::v_dot;
use crate::vec3::v_normalize;
use crate::vec3::v_scale;
use crate::vec3::v_sub;

/// A sphere: center, radius, one material all over.
#[derive(Clone, Debug)]
pub struct Sphere {
    pub center: Vec3,
    pub radius: i64,
    pub material: Material,
}

/// Spherical surface coordinates of a hit point: the longitude from the
/// two-argument arctangent and the latitude from the arcsine of the unit
/// offset, each mapped affinely into the unit square.
pub open spec fn s_sphere_uv(center: V3, point: V3) -> (int, int) {
    let rp = s_vnormalize(s_vsub(point, center));
    let theta = s_atan2(rp.z, rp.x);
    let phi = s_asin(rp.y);
    (
        s_add(FX_HALF as int, s_div(theta, FX_TWO_PI as int)),
        s_sub(FX_HALF as int, s_div(phi, FX_PI as int)),
    )
}

/// The quadratic intersection protocol: a strictly positive discriminant
/// and a strictly positive smaller root make a hit at parameter `t`;
/// tangent rays and roots behind the origin are misses.
#[verifier::opaque]
pub open spec fn s_sphere_intersect(s: Sphere, o: V3, d: V3) -> SHit {
    let oc = s_vsub(o, s.center.sv());
    let qa = s_vdot(d, d);
    let qb = s_mul(FX_TWO as int, s_vdot(oc, d));
    let qc = s_sub(s_vdot(oc, oc), s_mul(s.radius as int, s.radius as int));
    let disc = s_sub(s_mul(qb, qb), s_mul(s_mul(FX_FOUR as int, qa), qc));
    if disc > 0 {
        let t = s_div(s_sub(s_neg(qb), s_sqrt(disc)), s_mul(FX_TWO as int, qa));
        if t > 0 {
            let point = s_vadd(o, s_vscale(t, d));
            let normal = s_vnormalize(s_vsub(point, s.center.sv()));
            let uv = s_sphere_uv(s.center.sv(), point);
            SHit {
                point,
                normal,
                distance: t,
                hit: true,
                material: s.material.sv(),
                u: uv.0,
                v: uv.1,
            }
        } else {
            s_empty_hit()
        }
    } else {
        s_empty_hit()
    }
}

impl Sphere {
    /// Well-formedness: the material is well formed.
    pub open spec fn wf(self) -> bool {
        self.material.wf()
    }

    /// Surface coordinates of a point on this sphere.
    pub fn get_uv(&self, point: &Vec3) -> (r: (i64, i64))
        ensures
            (r.0 as int, r.1 as int) == s_sphere_uv(self.center.sv(), point.sv()),
    {
        let rp = v_normalize(&v_sub(point, &self.center));
        let theta = fx_atan2(rp.z, rp.x);
        let phi = fx_asin(rp.y);
        (fx_add(FX_HALF, fx_div(theta, FX_TWO_PI)), fx_sub(FX_HALF, fx_div(phi, FX_PI)))
    }
}

impl RayIntersect for Sphere {
    /// Quadratic ray-sphere intersection.
    fn ray_intersect(&self, ray_origin: &Vec3, ray_direction: &Vec3) -> (r: Intersect)
        ensures
            r.sv() == s_sphere_intersect(*self, ray_origin.sv(), ray_direction.sv()),
            self.wf() ==> r.wf(),
    {
        proof {
            reveal(s_sphere_intersect);
        }
        let oc = v_sub(ray_origin, &self.center);
        let qa = v_dot(ray_direction, ray_direction);
        let qb = fx_mul(FX_TWO, v_dot(&oc, ray_direction));
        let qc = fx_sub(v_dot(&oc, &oc), fx_mul(self.radius, self.radius));
        let disc = fx_sub(fx_mul(qb, qb), fx_mul(fx_mul(FX_FOUR, qa), qc));
        if disc > 0 {
            let t = fx_div(fx_sub(fx_neg(qb), fx_sqrt(disc)), fx_mul(FX_TWO, qa));
            if t > 0 {
                let point = v_add(ray_origin, &v_scale(t, ray_direction));
                let normal = v_normalize(&v_sub(&point, &self.center));
                let uv = self.get_uv(&point);
                return Intersect::new(point, normal, t, self.material.duplicate(), uv.0, uv.1);
            }
        }
        Intersect::empty()
    }
}

} // verus!
