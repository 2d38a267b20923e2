//! Axis-aligned cubes: slab-test ray intersection, face detection, and
//! per-face surface coordinates.
//!
//! Each of the six faces carries its own material. Faces are numbered by
//! axis and sign: 0 and 1 are the faces at low and high x, 3 and 2 at low
//! and high y, 5 and 4 at low and high z. Near an edge or corner more than
//! one axis passes the proximity test; the later axis in x, y, z order
//! silently overwrites the face choice, a tie-break kept from the
//! intersection protocol this implements.

use vstd::prelude::*;

verus! {

use crate::fixed::FX_ONE;
use crate::fixed::FX_HALF;
use crate::fixed::FX_TWO;
use crate::fixed::fx_abs;
use crate::fixed::fx_add;
use crate::fixed::fx_div;
use crate::fixed::fx_from_int;
use crate::fixed::fx_max;
use crate::fixed::fx_min;
use crate::fixed::fx_mul;
use crate::fixed::fx_neg;
use crate::fixed::fx_sub;
use crate::fixed::fx_trunc;
use crate::fixed::s_abs;
use crate::fixed::s_add;
use crate::fixed::s_div;
use crate::fixed::s_max;
use crate::fixed::s_min;
use crate::fixed::s_mul;
use crate::fixed::s_neg;
use crate::fixed::s_sub;
use crate::fixed::s_trunc;
use crate::fixed::sat64;
use crate::intersect::Intersect;
use crate::intersect::RayIntersect;
use crate::intersect::SHit;
use crate::intersect::s_empty_hit;
use crate::material::Material;
use crate::vec3::V3;
use crate::vec3::Vec3;
use crate::vec3::s_vadd;
use crate::vec3::s_vscale;
use crate::vec3::s_vsub;
use crate::vec3::v_add;
use crate::vec3::v_scale;
use crate::vec3::v_sub;

/// How close a hit coordinate must come to a slab plane to count as lying
/// on that face, in fixed point: about the tolerance the intersection
/// protocol prescribes.
pub const FX_FACE_TOL: i64 = 7;

/// An axis-aligned cube: center, edge length, and one material per face.
#[derive(Clone, Debug)]
pub struct Cube {
    pub center: Vec3,
    pub size: i64,
    pub materials: [Material; 6],
}

/// Fractional part with the sign of the argument, as the float fract
/// operation behaves.
pub open spec fn s_fract(x: int) -> int {
    s_sub(x, sat64(s_trunc(x) * 65536))
}

/// An offset pair mapped affinely from the signed unit square into the
/// unit square, wrapped by the fractional part.
pub open spec fn s_map_uv(u: int, v: int) -> (int, int) {
    (
        s_fract(s_mul(s_add(u, FX_ONE as int), FX_HALF as int)),
        s_fract(s_mul(s_add(v, FX_ONE as int), FX_HALF as int)),
    )
}

/// The per-face projection of a local hit offset into surface
/// coordinates. Swapping any sign here would visibly mirror a texture, so
/// the table is part of the contract.
pub open spec fn s_uv_for_face(face_index: int, p: V3) -> (int, int) {
    if face_index == 4 {
        s_map_uv(p.x, s_neg(p.y))
    } else if face_index == 5 {
        s_map_uv(s_neg(p.x), s_neg(p.y))
    } else if face_index == 0 {
        s_map_uv(p.z, s_neg(p.y))
    } else if face_index == 1 {
        s_map_uv(s_neg(p.z), s_neg(p.y))
    } else if face_index == 2 {
        s_map_uv(p.x, p.z)
    } else if face_index == 3 {
        s_map_uv(p.x, s_neg(p.z))
    } else {
        (0, 0)
    }
}

/// One slab bound times the inverse direction component.
pub open spec fn s_slab(bound: int, origin: int, inv: int) -> int {
    s_mul(s_sub(bound, origin), inv)
}

/// The face index chosen by scanning the axes in x, y, z order, each axis
/// overwriting the choice when the hit point lies within tolerance of its
/// low or high plane; zero when no axis is close.
pub open spec fn s_cube_face(p: V3, mn: V3, mx: V3) -> int {
    let fx_ = if s_abs(s_sub(p.x, mn.x)) < FX_FACE_TOL {
        0
    } else if s_abs(s_sub(p.x, mx.x)) < FX_FACE_TOL {
        1
    } else {
        0
    };
    let fy = if s_abs(s_sub(p.y, mn.y)) < FX_FACE_TOL {
        3
    } else if s_abs(s_sub(p.y, mx.y)) < FX_FACE_TOL {
        2
    } else {
        fx_
    };
    if s_abs(s_sub(p.z, mn.z)) < FX_FACE_TOL {
        5
    } else if s_abs(s_sub(p.z, mx.z)) < FX_FACE_TOL {
        4
    } else {
        fy
    }
}

/// The outward normal assembled axis by axis: each component is set to
/// minus or plus one when the hit point lies within tolerance of that
/// axis's low or high plane. On a face exactly one component is set; near
/// an edge several may be.
pub open spec fn s_cube_normal(p: V3, mn: V3, mx: V3) -> V3 {
    V3 {
        x: if s_abs(s_sub(p.x, mn.x)) < FX_FACE_TOL {
            -65536
        } else if s_abs(s_sub(p.x, mx.x)) < FX_FACE_TOL {
            65536
        } else {
            0
        },
        y: if s_abs(s_sub(p.y, mn.y)) < FX_FACE_TOL {
            -65536
        } else if s_abs(s_sub(p.y, mx.y)) < FX_FACE_TOL {
            65536
        } else {
            0
        },
        z: if s_abs(s_sub(p.z, mn.z)) < FX_FACE_TOL {
            -65536
        } else if s_abs(s_sub(p.z, mx.z)) < FX_FACE_TOL {
            65536
        } else {
            0
        },
    }
}

/// The slab-test intersection protocol: per-axis entry and exit
/// parameters from the inverse direction, a miss when the entry exceeds
/// the exit or the exit lies behind the origin, and the exit parameter
/// taken when the origin is inside the box.
#[verifier::opaque]
pub open spec fn s_cube_intersect(c: Cube, o: V3, d: V3) -> SHit {
    let half = s_div(c.size as int, FX_TWO as int);
    let cv = c.center.sv();
    let mn = s_vsub(cv, V3 { x: half, y: half, z: half });
    let mx = s_vadd(cv, V3 { x: half, y: half, z: half });
    let ix = s_div(FX_ONE as int, d.x);
    let iy = s_div(FX_ONE as int, d.y);
    let iz = s_div(FX_ONE as int, d.z);
    let tnx = s_slab(mn.x, o.x, ix);
    let tny = s_slab(mn.y, o.y, iy);
    let tnz = s_slab(mn.z, o.z, iz);
    let tmx = s_slab(mx.x, o.x, ix);
    let tmy = s_slab(mx.y, o.y, iy);
    let tmz = s_slab(mx.z, o.z, iz);
    let t1 = s_max(s_max(s_min(tnx, tmx), s_min(tny, tmy)), s_min(tnz, tmz));
    let t2 = s_min(s_min(s_max(tnx, tmx), s_max(tny, tmy)), s_max(tnz, tmz));
    if t1 > t2 || t2 < 0 {
        s_empty_hit()
    } else {
        let t_hit = if t1 < 0 {
            t2
        } else {
            t1
        };
        let p = s_vadd(o, s_vscale(t_hit, d));
        let face = s_cube_face(p, mn, mx);
        let normal = s_cube_normal(p, mn, mx);
        let local = s_vsub(p, cv);
        let uv = s_uv_for_face(face, local);
        SHit {
            point: p,
            normal,
            distance: t_hit,
            hit: true,
            material: c.materials[face].sv(),
            u: uv.0,
            v: uv.1,
        }
    }
}

impl Cube {
    /// Well-formedness: all six face materials are well formed.
    pub open spec fn wf(self) -> bool {
        &&& self.materials[0].wf()
        &&& self.materials[1].wf()
        &&& self.materials[2].wf()
        &&& self.materials[3].wf()
        &&& self.materials[4].wf()
        &&& self.materials[5].wf()
    }

    /// Surface coordinates of a local hit offset on the given face.
    pub fn get_uv_for_face(face_index: usize, local_pos: Vec3) -> (r: (i64, i64))
        ensures
            (r.0 as int, r.1 as int) == s_uv_for_face(face_index as int, local_pos.sv()),
    {
        match face_index {
            4 => Cube::map_uv(local_pos.x, fx_neg(local_pos.y)),
            5 => Cube::map_uv(fx_neg(local_pos.x), fx_neg(local_pos.y)),
            0 => Cube::map_uv(local_pos.z, fx_neg(local_pos.y)),
            1 => Cube::map_uv(fx_neg(local_pos.z), fx_neg(local_pos.y)),
            2 => Cube::map_uv(local_pos.x, local_pos.z),
            3 => Cube::map_uv(local_pos.x, fx_neg(local_pos.z)),
            _ => (0, 0),
        }
    }

    /// An offset pair mapped into the unit square.
    fn map_uv(u: i64, v: i64) -> (r: (i64, i64))
        ensures
            (r.0 as int, r.1 as int) == s_map_uv(u as int, v as int),
    {
        (fract(fx_mul(fx_add(u, FX_ONE), FX_HALF)), fract(fx_mul(fx_add(v, FX_ONE), FX_HALF)))
    }
}

/// Fractional part with the sign of the argument.
fn fract(x: i64) -> (r: i64)
    ensures
        r as int == s_fract(x as int),
{
    fx_sub(x, fx_from_int(fx_trunc(x)))
}

impl RayIntersect for Cube {
    /// Slab-test ray-box intersection with per-face material and surface
    /// coordinates.
    fn ray_intersect(&self, ray_origin: &Vec3, ray_direction: &Vec3) -> (r: Intersect)
        ensures
            r.sv() == s_cube_intersect(*self, ray_origin.sv(), ray_direction.sv()),
            self.wf() ==> r.wf(),
    {
        proof {
            reveal(s_cube_intersect);
        }
        let half = fx_div(self.size, FX_TWO);
        let hv = Vec3 { x: half, y: half, z: half };
        let mn = v_sub(&self.center, &hv);
        let mx = v_add(&self.center, &hv);
        let ix = fx_div(FX_ONE, ray_direction.x);
        let iy = fx_div(FX_ONE, ray_direction.y);
        let iz = fx_div(FX_ONE, ray_direction.z);
        let tnx = fx_mul(fx_sub(mn.x, ray_origin.x), ix);
        let tny = fx_mul(fx_sub(mn.y, ray_origin.y), iy);
        let tnz = fx_mul(fx_sub(mn.z, ray_origin.z), iz);
        let tmx = fx_mul(fx_sub(mx.x, ray_origin.x), ix);
        let tmy = fx_mul(fx_sub(mx.y, ray_origin.y), iy);
        let tmz = fx_mul(fx_sub(mx.z, ray_origin.z), iz);
        let t1 = fx_max(fx_max(fx_min(tnx, tmx), fx_min(tny, tmy)), fx_min(tnz, tmz));
        let t2 = fx_min(fx_min(fx_max(tnx, tmx), fx_max(tny, tmy)), fx_max(tnz, tmz));
        if t1 > t2 || t2 < 0 {
            return Intersect::empty();
        }
        let t_hit = if t1 < 0 {
            t2
        } else {
            t1
        };
        let p = v_add(ray_origin, &v_scale(t_hit, ray_direction));

        let mut normal = Vec3::zeros();
        let mut face_index: usize = 0;
        if fx_abs(fx_sub(p.x, mn.x)) < FX_FACE_TOL {
            normal.x = -FX_ONE;
            face_index = 0;
        } else if fx_abs(fx_sub(p.x, mx.x)) < FX_FACE_TOL {
            normal.x = FX_ONE;
            face_index = 1;
        }
        if fx_abs(fx_sub(p.y, mn.y)) < FX_FACE_TOL {
            normal.y = -FX_ONE;
            face_index = 3;
        } else if fx_abs(fx_sub(p.y, mx.y)) < FX_FACE_TOL {
            normal.y = FX_ONE;
            face_index = 2;
        }
        if fx_abs(fx_sub(p.z, mn.z)) < FX_FACE_TOL {
            normal.z = -FX_ONE;
            face_index = 5;
        } else if fx_abs(fx_sub(p.z, mx.z)) < FX_FACE_TOL {
            normal.z = FX_ONE;
            face_index = 4;
        }

        let local = v_sub(&p, &self.center);
        let uv = Cube::get_uv_for_face(face_index, local);
        Intersect::new(p, normal, t_hit, self.materials[face_index].duplicate(), uv.0, uv.1)
    }
}

} // verus!
