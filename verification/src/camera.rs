//! The camera: a look-at pose with movement and orbit operators.
//!
//! The basis is recomputed from the pose at every call rather than stored,
//! so a pose fully determines every derived direction. All operators are
//! pinned to spec mirrors over the exact integer images of the pose.

use vstd::prelude::*;

verus! {

use crate::fixed::FX_TWO_PI;
use crate::fixed::fx_add;
use crate::fixed::fx_clamp;
use crate::fixed::fx_div;
use crate::fixed::fx_from_int;
use crate::fixed::fx_mul;
use crate::fixed::fx_neg;
use crate::fixed::fx_sqrt;
use crate::fixed::fx_sub;
use crate::fixed::fx_trunc;
use crate::fixed::s_add;
use crate::fixed::s_clamp;
use crate::fixed::s_div;
use crate::fixed::s_mul;
use crate::fixed::s_neg;
use crate::fixed::s_sqrt;
use crate::fixed::s_sub;
use crate::fixed::s_trunc;
use crate::fixed::sat64;
use crate::trig::fx_atan2;
use crate::trig::fx_cos;
use crate::trig::fx_sin;
use crate::trig::s_atan2;
use crate::trig::s_cos;
use crate::trig::s_sin;
use crate::vec3::V3;
use crate::vec3::Vec3;
use crate::vec3::s_vadd;
use crate::vec3::s_vcross;
use crate::vec3::s_vnormalize;
use crate::vec3::s_vscale;
use crate::vec3::s_vsub;
use crate::vec3::v_add;
use crate::vec3::v_cross;
use crate::vec3::v_normalize;
use crate::vec3::v_scale;
use crate::vec3::v_sub;

/// The pitch bound used by the orbit operator: a tenth of a radian short
/// of a quarter turn, so the view never flips over the pole.
pub const FX_PITCH_LIMIT: i64 = 96390;

/// Spec-level camera pose.
pub struct SCamera {
    pub eye: V3,
    pub center: V3,
    pub up: V3,
}

/// A camera pose: where the eye sits, what point it looks at, and which
/// way is up.
#[derive(Clone, Copy, PartialEq, Eq, Structural, Debug)]
pub struct Camera {
    pub eye: Vec3,
    pub center: Vec3,
    pub up: Vec3,
}

/// The world-space image of a camera-space direction: its components laid
/// along the right, up and backward-forward basis vectors derived from the
/// pose, then normalized.
pub open spec fn s_basis_change(c: SCamera, v: V3) -> V3 {
    let forward = s_vnormalize(s_vsub(c.center, c.eye));
    let right = s_vnormalize(s_vcross(forward, c.up));
    let up = s_vnormalize(s_vcross(right, forward));
    s_vnormalize(
        s_vsub(s_vadd(s_vscale(v.x, right), s_vscale(v.y, up)), s_vscale(v.z, forward)),
    )
}

/// The pose after walking along the view direction and strafing along the
/// right direction; the look target translates equally, so the view
/// direction is preserved.
pub open spec fn s_move_camera(c: SCamera, forward: int, rightward: int) -> SCamera {
    let fd = s_vnormalize(s_vsub(c.center, c.eye));
    let rd = s_vnormalize(s_vcross(fd, c.up));
    SCamera {
        eye: s_vadd(s_vadd(c.eye, s_vscale(forward, fd)), s_vscale(rightward, rd)),
        center: s_vadd(s_vadd(c.center, s_vscale(forward, fd)), s_vscale(rightward, rd)),
        up: c.up,
    }
}

/// The pose after translating eye and look target along the up vector.
pub open spec fn s_move_vertical(c: SCamera, vertical: int) -> SCamera {
    SCamera {
        eye: s_vadd(c.eye, s_vscale(vertical, c.up)),
        center: s_vadd(c.center, s_vscale(vertical, c.up)),
        up: c.up,
    }
}

/// Truncating remainder of an angle by one full turn, as machine
/// floating-point remainder behaves: the result keeps the sign of the
/// dividend.
pub open spec fn s_angle_rem(a: int) -> int {
    s_sub(a, s_mul(sat64(s_trunc(s_div(a, FX_TWO_PI as int)) * 65536), FX_TWO_PI as int))
}

/// The pose after orbiting about the look target: the eye offset is read
/// as spherical coordinates, the yaw and pitch deltas are applied with the
/// pitch clamped short of the poles, and the eye is rebuilt at the same
/// radius; the look target stays fixed.
pub open spec fn s_orbit(c: SCamera, delta_yaw: int, delta_pitch: int) -> SCamera {
    let rv = s_vsub(c.eye, c.center);
    let radius = s_sqrt(
        s_add(s_add(s_mul(rv.x, rv.x), s_mul(rv.y, rv.y)), s_mul(rv.z, rv.z)),
    );
    let yaw = s_atan2(rv.z, rv.x);
    let radius_xz = s_sqrt(s_add(s_mul(rv.x, rv.x), s_mul(rv.z, rv.z)));
    let pitch = s_atan2(s_neg(rv.y), radius_xz);
    let new_yaw = s_angle_rem(s_add(yaw, delta_yaw));
    let new_pitch = s_clamp(
        s_add(pitch, delta_pitch),
        -FX_PITCH_LIMIT as int,
        FX_PITCH_LIMIT as int,
    );
    let offset = V3 {
        x: s_mul(s_mul(radius, s_cos(new_yaw)), s_cos(new_pitch)),
        y: s_neg(s_mul(radius, s_sin(new_pitch))),
        z: s_mul(s_mul(radius, s_sin(new_yaw)), s_cos(new_pitch)),
    };
    SCamera { eye: s_vadd(c.center, offset), center: c.center, up: c.up }
}

impl Camera {
    /// The spec-level image of this pose.
    pub open spec fn sv(self) -> SCamera {
        SCamera { eye: self.eye.sv(), center: self.center.sv(), up: self.up.sv() }
    }

    /// Walk along the view direction and strafe along the right direction.
    pub fn move_camera(&mut self, forward: i64, rightward: i64)
        ensures
            final(self).sv() == s_move_camera(old(self).sv(), forward as int, rightward as int),
    {
        let fd = v_normalize(&v_sub(&self.center, &self.eye));
        let rd = v_normalize(&v_cross(&fd, &self.up));
        self.eye = v_add(&self.eye, &v_scale(forward, &fd));
        self.center = v_add(&self.center, &v_scale(forward, &fd));
        self.eye = v_add(&self.eye, &v_scale(rightward, &rd));
        self.center = v_add(&self.center, &v_scale(rightward, &rd));
    }

    /// Translate eye and look target along the up vector.
    pub fn move_vertical(&mut self, vertical: i64)
        ensures
            final(self).sv() == s_move_vertical(old(self).sv(), vertical as int),
    {
        self.eye = v_add(&self.eye, &v_scale(vertical, &self.up));
        self.center = v_add(&self.center, &v_scale(vertical, &self.up));
    }

    /// Bring a camera-space direction into world space. The pose is read,
    /// never written, and the result is a function of the pose and the
    /// argument alone, so repeated calls agree.
    pub fn basis_change(&self, vector: &Vec3) -> (r: Vec3)
        ensures
            r.sv() == s_basis_change(self.sv(), vector.sv()),
    {
        let forward = v_normalize(&v_sub(&self.center, &self.eye));
        let right = v_normalize(&v_cross(&forward, &self.up));
        let up = v_normalize(&v_cross(&right, &forward));
        v_normalize(
            &v_sub(
                &v_add(&v_scale(vector.x, &right), &v_scale(vector.y, &up)),
                &v_scale(vector.z, &forward),
            ),
        )
    }

    /// Orbit the eye about the look target by yaw and pitch deltas.
    pub fn orbit(&mut self, delta_yaw: i64, delta_pitch: i64)
        ensures
            final(self).sv() == s_orbit(old(self).sv(), delta_yaw as int, delta_pitch as int),
            final(self).center == old(self).center,
            final(self).up == old(self).up,
    {
        let rv = v_sub(&self.eye, &self.center);
        let radius = fx_sqrt(
            fx_add(fx_add(fx_mul(rv.x, rv.x), fx_mul(rv.y, rv.y)), fx_mul(rv.z, rv.z)),
        );
        let yaw = fx_atan2(rv.z, rv.x);
        let radius_xz = fx_sqrt(fx_add(fx_mul(rv.x, rv.x), fx_mul(rv.z, rv.z)));
        let pitch = fx_atan2(fx_neg(rv.y), radius_xz);
        let yaw_sum = fx_add(yaw, delta_yaw);
        let new_yaw = fx_sub(
            yaw_sum,
            fx_mul(fx_from_int(fx_trunc(fx_div(yaw_sum, FX_TWO_PI))), FX_TWO_PI),
        );
        let new_pitch = fx_clamp(fx_add(pitch, delta_pitch), -FX_PITCH_LIMIT, FX_PITCH_LIMIT);
        let offset = Vec3 {
            x: fx_mul(fx_mul(radius, fx_cos(new_yaw)), fx_cos(new_pitch)),
            y: fx_neg(fx_mul(radius, fx_sin(new_pitch))),
            z: fx_mul(fx_mul(radius, fx_sin(new_yaw)), fx_cos(new_pitch)),
        };
        self.eye = v_add(&self.center, &offset);
    }
}

} // verus!
