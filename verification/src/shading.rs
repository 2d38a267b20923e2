//! The shading engine: recursive light transport per ray.
//!
//! A cast ray scans the scene for the closest hit, shades it with an
//! ambient term per low-intensity light and Lambertian plus Phong terms
//! per full light (attenuated by a soft shadow factor), and recurses for
//! reflection and refraction up to a fixed depth bound carried by the
//! render configuration. Every step is pinned to a spec mirror, and the
//! recursion carries an explicit decreases measure, so termination within
//! the depth bound is checked, not hoped for.

use vstd::prelude::*;

verus! {

use crate::color::Color;
use crate::color::SColor;
use crate::color::s_cadd;
use crate::color::s_cscale;
use crate::fixed::FX_EPS;
use crate::fixed::FX_ONE;
use crate::fixed::FX_TWO;
use crate::fixed::fx_add;
use crate::fixed::fx_clamp;
use crate::fixed::fx_div;
use crate::fixed::fx_max;
use crate::fixed::fx_min;
use crate::fixed::fx_mul;
use crate::fixed::fx_neg;
use crate::fixed::fx_powi;
use crate::fixed::fx_sqrt;
use crate::fixed::fx_sub;
use crate::fixed::fx_trunc;
use crate::fixed::lemma_s_div_nonneg;
use crate::fixed::s_add;
use crate::fixed::s_clamp;
use crate::fixed::s_div;
use crate::fixed::s_max;
use crate::fixed::s_min;
use crate::fixed::s_mul;
use crate::fixed::s_neg;
use crate::fixed::s_powi;
use crate::fixed::s_sqrt;
use crate::fixed::s_sub;
use crate::fixed::s_trunc;
use crate::intersect::Intersect;
use crate::intersect::RayIntersect;
use crate::intersect::SHit;
use crate::intersect::s_empty_hit;
use crate::light::Light;
use crate::light::SLight;
use crate::material::s_diffuse_at;
use crate::primitive::Primitive;
use crate::primitive::s_primitive_intersect;
use crate::color::s_sat255;
use crate::vec3::V3;
use crate::vec3::Vec3;
use crate::vec3::s_vadd;
use crate::vec3::s_vdot;
use crate::vec3::s_vneg;
use crate::vec3::s_vnorm;
use crate::vec3::s_vnormalize;
use crate::vec3::s_vscale;
use crate::vec3::s_vsub;
use crate::vec3::v_add;
use crate::vec3::v_dot;
use crate::vec3::v_neg;
use crate::vec3::v_norm;
use crate::vec3::v_normalize;
use crate::vec3::v_scale;
use crate::vec3::v_sub;
use vstd::arithmetic::div_mod::lemma_multiply_divide_lt;
use vstd::arithmetic::mul::lemma_mul_strict_inequality;

/// Spec-level render configuration.
pub struct SConfig {
    pub max_depth: int,
    pub ambient_threshold: int,
    pub background: Color,
}

/// The engine's configuration: the recursion depth bound, the intensity
/// threshold below which a light is treated as ambient, and the
/// background color returned for rays that hit nothing.
#[derive(Clone, Copy, PartialEq, Eq, Structural, Debug)]
pub struct RenderConfig {
    pub max_depth: u32,
    pub ambient_threshold: i64,
    pub background: Color,
}

impl RenderConfig {
    /// Well-formedness: the depth bound leaves room to count one past it.
    pub open spec fn wf(self) -> bool {
        self.max_depth < 0xffff_ffff
    }

    /// The spec-level image of this configuration.
    pub open spec fn sv(self) -> SConfig {
        SConfig {
            max_depth: self.max_depth as int,
            ambient_threshold: self.ambient_threshold as int,
            background: self.background,
        }
    }

    /// The default configuration: one bounce of recursion, an ambient
    /// threshold of three tenths, and a deep night-blue background.
    pub fn new() -> (c: RenderConfig)
        ensures
            c.wf(),
            c.max_depth == 1,
            c.ambient_threshold == 19660,
            c.background == (Color { r: 4, g: 12, b: 36 }),
    {
        RenderConfig { max_depth: 1, ambient_threshold: 19660, background: Color::new(4, 12, 36) }
    }
}

/// Mirror reflection of an incident direction about a surface normal.
pub open spec fn s_reflect(incident: V3, normal: V3) -> V3 {
    s_vsub(incident, s_vscale(s_mul(FX_TWO as int, s_vdot(incident, normal)), normal))
}

/// Mirror reflection of an incident direction about a surface normal.
pub fn reflect(incident: &Vec3, normal: &Vec3) -> (r: Vec3)
    ensures
        r.sv() == s_reflect(incident.sv(), normal.sv()),
{
    v_sub(incident, &v_scale(fx_mul(FX_TWO, v_dot(incident, normal)), normal))
}

/// Snell refraction of an incident direction at a surface of relative
/// index `eta_t`, entering or exiting by the sign of the incidence
/// cosine; total internal reflection falls back to the mirror reflection.
pub open spec fn s_refract(incident: V3, normal: V3, eta_t: int) -> V3 {
    let cosi = s_neg(s_clamp(s_vdot(incident, normal), -(FX_ONE as int), FX_ONE as int));
    let n_cosi = if cosi < 0 {
        s_neg(cosi)
    } else {
        cosi
    };
    let eta = if cosi < 0 {
        s_div(FX_ONE as int, eta_t)
    } else {
        eta_t
    };
    let n_normal = if cosi < 0 {
        s_vneg(normal)
    } else {
        normal
    };
    let k = s_sub(FX_ONE as int, s_mul(s_mul(eta, eta), s_sub(FX_ONE as int, s_mul(n_cosi, n_cosi))));
    if k < 0 {
        s_reflect(incident, n_normal)
    } else {
        s_vadd(s_vscale(eta, incident), s_vscale(s_sub(s_mul(eta, n_cosi), s_sqrt(k)), n_normal))
    }
}

/// Snell refraction with total internal reflection fallback.
pub fn refract(incident: &Vec3, normal: &Vec3, eta_t: i64) -> (r: Vec3)
    ensures
        r.sv() == s_refract(incident.sv(), normal.sv(), eta_t as int),
{
    let cosi = fx_neg(fx_clamp(v_dot(incident, normal), -FX_ONE, FX_ONE));
    let n_cosi = if cosi < 0 {
        fx_neg(cosi)
    } else {
        cosi
    };
    let eta = if cosi < 0 {
        fx_div(FX_ONE, eta_t)
    } else {
        eta_t
    };
    let n_normal = if cosi < 0 {
        v_neg(normal)
    } else {
        *normal
    };
    let k = fx_sub(FX_ONE, fx_mul(fx_mul(eta, eta), fx_sub(FX_ONE, fx_mul(n_cosi, n_cosi))));
    if k < 0 {
        reflect(incident, &n_normal)
    } else {
        v_add(&v_scale(eta, incident), &v_scale(fx_sub(fx_mul(eta, n_cosi), fx_sqrt(k)), &n_normal))
    }
}

/// Every primitive in the scene carries well-formed materials.
pub open spec fn s_all_wf(objs: Seq<Primitive>) -> bool {
    forall|i: int| 0 <= i < objs.len() ==> #[trigger] objs[i].wf()
}

/// The linear scan for the closest hit, carried left to right: each
/// primitive's intersection replaces the best so far exactly when it hits
/// at a strictly smaller distance.
pub open spec fn s_scan_closest(objs: Seq<Primitive>, o: V3, d: V3, best: SHit) -> SHit
    decreases objs.len(),
{
    if objs.len() == 0 {
        best
    } else {
        let h = s_primitive_intersect(objs[0], o, d);
        let nb = if h.hit && (!best.hit || h.distance < best.distance) {
            h
        } else {
            best
        };
        s_scan_closest(objs.drop_first(), o, d, nb)
    }
}

/// The closest hit over the whole scene, starting from the empty record.
pub open spec fn s_closest_hit(objs: Seq<Primitive>, o: V3, d: V3) -> SHit {
    s_scan_closest(objs, o, d, s_empty_hit())
}

/// Scan the scene in order and keep the hit with the smallest positive
/// distance; the empty record when nothing is hit.
#[verifier::loop_isolation(false)]
#[verifier::rlimit(100)]
pub fn closest_hit(objects: &Vec<Primitive>, ray_origin: &Vec3, ray_direction: &Vec3) -> (r:
    Intersect)
    ensures
        r.sv() == s_closest_hit(objects@, ray_origin.sv(), ray_direction.sv()),
        s_all_wf(objects@) ==> r.wf(),
{
    let mut best = Intersect::empty();
    let mut i: usize = 0;
    proof {
        assert(objects@.skip(0) =~= objects@);
    }
    while i < objects.len()
        invariant
            i <= objects@.len(),
            s_scan_closest(objects@.skip(i as int), ray_origin.sv(), ray_direction.sv(), best.sv())
                == s_closest_hit(objects@, ray_origin.sv(), ray_direction.sv()),
            s_all_wf(objects@) ==> best.wf(),
        decreases objects@.len() - i,
    {
        proof {
            assert(objects@.skip(i as int)[0] == objects@[i as int]);
            assert(objects@.skip(i as int).drop_first() =~= objects@.skip(i as int + 1));
        }
        let h = objects[i].ray_intersect(ray_origin, ray_direction);
        if h.is_intersecting && (!best.is_intersecting || h.distance < best.distance) {
            best = h;
        }
        i = i + 1;
    }
    proof {
        assert(objects@.skip(objects@.len() as int).len() == 0);
    }
    best
}

/// The soft shadow attenuation by occluder proximity: one minus the
/// clamped ratio of the occluder distance to the light distance.
pub open spec fn s_shadow_factor(d_obj: int, d_light: int) -> int {
    s_sub(FX_ONE as int, s_min(s_div(d_obj, d_light), FX_ONE as int))
}

/// The shadow scan: the first primitive in scene order whose hit lies
/// strictly nearer than the light decides the factor; hits at or beyond
/// the light are passed over, and a clear scan yields zero.
pub open spec fn s_shadow_scan(
    objs: Seq<Primitive>,
    s_origin: V3,
    l_dir: V3,
    hit_point: V3,
    light_pos: V3,
) -> int
    decreases objs.len(),
{
    if objs.len() == 0 {
        0
    } else {
        let sh = s_primitive_intersect(objs[0], s_origin, l_dir);
        let rest = s_shadow_scan(objs.drop_first(), s_origin, l_dir, hit_point, light_pos);
        if sh.hit {
            let d_obj = s_vnorm(s_vsub(sh.point, hit_point));
            let d_light = s_vnorm(s_vsub(light_pos, hit_point));
            if d_obj < d_light {
                s_shadow_factor(d_obj, d_light)
            } else {
                rest
            }
        } else {
            rest
        }
    }
}

/// The shadow cast on a hit by a light: a ray from just off the surface
/// toward the light, scanned against the whole scene.
pub open spec fn s_cast_shadow(hit: SHit, light: SLight, objs: Seq<Primitive>) -> int {
    let l_dir = s_vnormalize(s_vsub(light.position, hit.point));
    let s_origin = s_vadd(hit.point, s_vscale(FX_EPS as int, hit.normal));
    s_shadow_scan(objs, s_origin, l_dir, hit.point, light.position)
}

/// How much of the light a hit point loses to occluders, between zero
/// (clear) and one (fully shadowed). The scan stops at the first
/// occluding primitive in scene order.
#[verifier::loop_isolation(false)]
#[verifier::rlimit(100)]
pub fn cast_shadow(intersect: &Intersect, light: &Light, objects: &Vec<Primitive>) -> (r: i64)
    ensures
        r as int == s_cast_shadow(intersect.sv(), light.sv(), objects@),
        0 <= r <= FX_ONE,
{
    let light_dir = v_normalize(&v_sub(&light.position, &intersect.point));
    let shadow_origin = v_add(&intersect.point, &v_scale(FX_EPS, &intersect.normal));
    let ghost so = shadow_origin.sv();
    let ghost ld = light_dir.sv();
    let ghost hp = intersect.sv().point;
    let ghost lp = light.sv().position;
    let mut result: i64 = 0;
    let ghost mut found: bool = false;
    let mut i: usize = 0;
    proof {
        assert(objects@.skip(0) =~= objects@);
    }
    while i < objects.len()
        invariant
            i <= objects@.len(),
            0 <= result <= FX_ONE,
            !found ==> result == 0 && s_shadow_scan(objects@.skip(i as int), so, ld, hp, lp)
                == s_shadow_scan(objects@, so, ld, hp, lp),
            found ==> result as int == s_shadow_scan(objects@, so, ld, hp, lp),
            found ==> i == objects@.len(),
        decreases objects@.len() - i,
    {
        proof {
            assert(objects@.skip(i as int)[0] == objects@[i as int]);
            assert(objects@.skip(i as int).drop_first() =~= objects@.skip(i as int + 1));
        }
        let sh = objects[i].ray_intersect(&shadow_origin, &light_dir);
        if sh.is_intersecting {
            let d_obj = v_norm(&v_sub(&sh.point, &intersect.point));
            let d_light = v_norm(&v_sub(&light.position, &intersect.point));
            if d_obj < d_light {
                proof {
                    lemma_s_div_nonneg(d_obj as int, d_light as int);
                    assert(s_shadow_scan(objects@.skip(i as int), so, ld, hp, lp)
                        == s_shadow_factor(d_obj as int, d_light as int));
                }
                result = fx_sub(FX_ONE, fx_min(fx_div(d_obj, d_light), FX_ONE));
                proof {
                    found = true;
                }
                i = objects.len();
            } else {
                i = i + 1;
            }
        } else {
            i = i + 1;
        }
    }
    proof {
        if !found {
            assert(objects@.skip(objects@.len() as int).len() == 0);
        }
    }
    result
}

/// A ray that is shadowed by an opaque occluder sitting strictly between
/// the point and the light loses strictly more than with a clear scan,
/// whose factor is zero.
pub proof fn lemma_occluder_darkens(d_obj: int, d_light: int)
    requires
        0 < d_obj < d_light,
        d_light <= 0x7fff_ffff_ffff_ffff,
    ensures
        s_shadow_factor(d_obj, d_light) > 0,
{
    lemma_mul_strict_inequality(d_obj, d_light, 65536);
    lemma_multiply_divide_lt(d_obj * 65536, d_light, 65536);
    lemma_s_div_nonneg(d_obj, d_light);
}

/// Bringing an occluder closer to the shaded point never lightens the
/// shadow: the factor is antitone in the occluder distance.
pub proof fn lemma_shadow_monotone(d1: int, d2: int, d_light: int)
    requires
        0 <= d1 <= d2,
        0 < d_light,
    ensures
        s_shadow_factor(d1, d_light) >= s_shadow_factor(d2, d_light),
{
    vstd::arithmetic::mul::lemma_mul_inequality(d1, d2, 65536);
    vstd::arithmetic::div_mod::lemma_div_is_ordered(d1 * 65536, d2 * 65536, d_light);
    lemma_s_div_nonneg(d1, d_light);
    lemma_s_div_nonneg(d2, d_light);
}

/// The empty color accumulator.
pub open spec fn s_czero() -> SColor {
    SColor { r: 0, g: 0, b: 0 }
}

/// One light's contribution folded onto the accumulator. A light at or
/// below the ambient threshold adds the diffuse color scaled by its bare
/// intensity, with no shadow or specular term. A full light adds a
/// Lambertian diffuse term and a Phong specular term, both scaled by the
/// light intensity attenuated by the shadow factor, each sum saturating
/// per channel.
pub open spec fn s_light_step(
    l: Light,
    objs: Seq<Primitive>,
    hit: SHit,
    dcol: Color,
    spec_i: int,
    cfg: SConfig,
    acc: SColor,
) -> SColor {
    if l.sv().intensity <= cfg.ambient_threshold {
        s_cadd(acc, s_cscale(dcol.sv(), l.sv().intensity))
    } else {
        let ldir = s_vnormalize(s_vsub(l.sv().position, hit.point));
        let lambert = s_clamp(s_vdot(hit.normal, ldir), 0, FX_ONE as int);
        let shadow = s_cast_shadow(hit, l.sv(), objs);
        let lint = s_mul(l.sv().intensity, s_sub(FX_ONE as int, shadow));
        let dterm = s_cscale(dcol.sv(), s_mul(s_mul(hit.material.diffuse_k, lambert), lint));
        let sterm = s_cscale(l.sv().color.sv(), s_mul(s_mul(hit.material.specular_k, spec_i), lint));
        s_cadd(s_cadd(acc, dterm), sterm)
    }
}

/// The lights folded left to right onto the accumulator.
pub open spec fn s_light_fold(
    lights: Seq<Light>,
    objs: Seq<Primitive>,
    hit: SHit,
    dcol: Color,
    spec_i: int,
    cfg: SConfig,
    acc: SColor,
) -> SColor
    decreases lights.len(),
{
    if lights.len() == 0 {
        acc
    } else {
        s_light_fold(
            lights.drop_first(),
            objs,
            hit,
            dcol,
            spec_i,
            cfg,
            s_light_step(lights[0], objs, hit, dcol, spec_i, cfg, acc),
        )
    }
}

/// One channel of the final blend: the local, reflected and refracted
/// contributions weighted and summed in fixed point, truncated and
/// clamped to the channel range. The local weight is one minus the
/// reflective and refractive weights and may go negative when those
/// exceed one; the clamp pins such a channel at zero rather than letting
/// it wrap.
pub open spec fn s_blend_ch(lc: int, rc: int, fc: int, wl: int, rk: int, fk: int) -> int {
    s_sat255(
        s_trunc(s_add(s_add(s_mul(lc * 65536, wl), s_mul(rc * 65536, rk)), s_mul(fc * 65536, fk))),
    )
}

/// The final blend of the three contributions, channel by channel.
pub open spec fn s_blend(local: SColor, refl: SColor, refr: SColor, wl: int, rk: int, fk: int) -> SColor {
    SColor {
        r: s_blend_ch(local.r, refl.r, refr.r, wl, rk, fk),
        g: s_blend_ch(local.g, refl.g, refr.g, wl, rk, fk),
        b: s_blend_ch(local.b, refl.b, refr.b, wl, rk, fk),
    }
}

/// The recursive light-transport evaluator. Past the depth bound the
/// background comes back untouched; a miss yields the background; a hit
/// is shaded by every light and extended by reflected and refracted
/// casts one level deeper.
pub open spec fn s_cast_ray(
    o: V3,
    d: V3,
    objs: Seq<Primitive>,
    lights: Seq<Light>,
    depth: int,
    cfg: SConfig,
) -> SColor
    decreases cfg.max_depth + 1 - depth,
{
    if depth > cfg.max_depth {
        cfg.background.sv()
    } else {
        let hit = s_closest_hit(objs, o, d);
        if !hit.hit {
            cfg.background.sv()
        } else {
            let dcol = s_diffuse_at(hit.material, hit.u, hit.v);
            let vdir = s_vnormalize(s_vsub(o, hit.point));
            let rdir = s_vnormalize(s_reflect(s_vneg(d), hit.normal));
            let spec_i = s_powi(s_max(0, s_vdot(vdir, rdir)), hit.material.specular as nat);
            let local = s_light_fold(lights, objs, hit, dcol, spec_i, cfg, s_czero());
            let rk = hit.material.reflect_k;
            let fk = hit.material.refract_k;
            let refl = if rk > 0 {
                s_cscale(
                    s_cast_ray(
                        s_vadd(hit.point, s_vscale(FX_EPS as int, hit.normal)),
                        rdir,
                        objs,
                        lights,
                        depth + 1,
                        cfg,
                    ),
                    rk,
                )
            } else {
                s_czero()
            };
            let refr = if fk > 0 {
                s_cscale(
                    s_cast_ray(
                        s_vsub(hit.point, s_vscale(FX_EPS as int, hit.normal)),
                        s_vnormalize(s_refract(d, hit.normal, hit.material.refractive_index)),
                        objs,
                        lights,
                        depth + 1,
                        cfg,
                    ),
                    fk,
                )
            } else {
                s_czero()
            };
            let wl = s_sub(s_sub(FX_ONE as int, rk), fk);
            s_blend(local, refl, refr, wl, rk, fk)
        }
    }
}

/// One channel of the final blend.
fn blend_channel(lc: u8, rc: u8, fc: u8, wl: i64, rk: i64, fk: i64) -> (r: u8)
    ensures
        r as int == s_blend_ch(lc as int, rc as int, fc as int, wl as int, rk as int, fk as int),
{
    let t = fx_add(
        fx_add(fx_mul((lc as i64) * 65536, wl), fx_mul((rc as i64) * 65536, rk)),
        fx_mul((fc as i64) * 65536, fk),
    );
    let tt = fx_trunc(t);
    if tt < 0 {
        0
    } else if tt > 255 {
        255
    } else {
        tt as u8
    }
}

/// Cast one ray into the scene and evaluate its color.
///
/// The recursion for reflection and refraction carries the explicit
/// measure `max_depth + 1 - depth`, so for any scene -- an endless hall of
/// mirrors included -- the evaluation returns within the depth bound; the
/// measure is what the verifier checks, not a runtime counter.
#[verifier::loop_isolation(false)]
#[verifier::rlimit(100)]
pub fn cast_ray(
    ray_origin: &Vec3,
    ray_direction: &Vec3,
    objects: &Vec<Primitive>,
    lights: &Vec<Light>,
    depth: u32,
    config: &RenderConfig,
) -> (c: Color)
    requires
        config.wf(),
        s_all_wf(objects@),
    ensures
        c.sv() == s_cast_ray(
            ray_origin.sv(),
            ray_direction.sv(),
            objects@,
            lights@,
            depth as int,
            config.sv(),
        ),
    decreases config.max_depth + 1 - depth,
{
    if depth > config.max_depth {
        return config.background;
    }
    let hit = closest_hit(objects, ray_origin, ray_direction);
    if !hit.is_intersecting {
        return config.background;
    }
    let diffuse_color = hit.material.get_diffuse_color(hit.u, hit.v);
    let view_dir = v_normalize(&v_sub(ray_origin, &hit.point));
    let reflect_dir = v_normalize(&reflect(&v_neg(ray_direction), &hit.normal));
    let spec_i = fx_powi(fx_max(0, v_dot(&view_dir, &reflect_dir)), hit.material.specular);

    let mut acc = Color::black();
    let mut li: usize = 0;
    proof {
        assert(lights@.skip(0) =~= lights@);
    }
    while li < lights.len()
        invariant
            li <= lights@.len(),
            s_light_fold(
                lights@.skip(li as int),
                objects@,
                hit.sv(),
                diffuse_color,
                spec_i as int,
                config.sv(),
                acc.sv(),
            ) == s_light_fold(
                lights@,
                objects@,
                hit.sv(),
                diffuse_color,
                spec_i as int,
                config.sv(),
                s_czero(),
            ),
        decreases lights@.len() - li,
    {
        proof {
            assert(lights@.skip(li as int)[0] == lights@[li as int]);
            assert(lights@.skip(li as int).drop_first() =~= lights@.skip(li as int + 1));
        }
        let light = lights[li];
        if light.intensity <= config.ambient_threshold {
            acc = acc.add_sat(&diffuse_color.scale_fx(light.intensity));
        } else {
            let light_dir = v_normalize(&v_sub(&light.position, &hit.point));
            let lambert = fx_clamp(v_dot(&hit.normal, &light_dir), 0, FX_ONE);
            let shadow = cast_shadow(&hit, &light, objects);
            let light_intensity = fx_mul(light.intensity, fx_sub(FX_ONE, shadow));
            let diffuse_term = diffuse_color.scale_fx(
                fx_mul(fx_mul(hit.material.albedo[0], lambert), light_intensity),
            );
            let specular_term = light.color.scale_fx(
                fx_mul(fx_mul(hit.material.albedo[1], spec_i), light_intensity),
            );
            acc = acc.add_sat(&diffuse_term).add_sat(&specular_term);
        }
        li = li + 1;
    }
    proof {
        assert(lights@.skip(lights@.len() as int).len() == 0);
    }

    let rk = hit.material.albedo[2];
    let fk = hit.material.albedo[3];
    let reflect_color = if rk > 0 {
        let reflect_origin = v_add(&hit.point, &v_scale(FX_EPS, &hit.normal));
        cast_ray(&reflect_origin, &reflect_dir, objects, lights, depth + 1, config).scale_fx(rk)
    } else {
        Color::black()
    };
    let refract_color = if fk > 0 {
        let refract_dir = v_normalize(
            &refract(ray_direction, &hit.normal, hit.material.refractive_index),
        );
        let refract_origin = v_sub(&hit.point, &v_scale(FX_EPS, &hit.normal));
        cast_ray(&refract_origin, &refract_dir, objects, lights, depth + 1, config).scale_fx(fk)
    } else {
        Color::black()
    };
    let local_weight = fx_sub(fx_sub(FX_ONE, rk), fk);
    Color {
        r: blend_channel(acc.r, reflect_color.r, refract_color.r, local_weight, rk, fk),
        g: blend_channel(acc.g, reflect_color.g, refract_color.g, local_weight, rk, fk),
        b: blend_channel(acc.b, reflect_color.b, refract_color.b, local_weight, rk, fk),
    }
}

/// The scan earns its name: starting from any running best, whenever the
/// best so far or any primitive in the scene is hit, the scan reports a
/// hit, and no reported hit lies farther than either.
pub proof fn lemma_scan_closest_min(objs: Seq<Primitive>, o: V3, d: V3, best: SHit)
    ensures
        best.hit ==> s_scan_closest(objs, o, d, best).hit,
        best.hit ==> s_scan_closest(objs, o, d, best).distance <= best.distance,
        forall|i: int|
            0 <= i < objs.len() && (#[trigger] s_primitive_intersect(objs[i], o, d)).hit
                ==> s_scan_closest(objs, o, d, best).hit,
        forall|i: int|
            0 <= i < objs.len() && (#[trigger] s_primitive_intersect(objs[i], o, d)).hit
                ==> s_scan_closest(objs, o, d, best).distance <= s_primitive_intersect(
                objs[i],
                o,
                d,
            ).distance,
    decreases objs.len(),
{
    if objs.len() == 0 {
    } else {
        let h = s_primitive_intersect(objs[0], o, d);
        let nb = if h.hit && (!best.hit || h.distance < best.distance) {
            h
        } else {
            best
        };
        let rest = objs.drop_first();
        lemma_scan_closest_min(rest, o, d, nb);
        assert forall|i: int|
            0 <= i < objs.len() && (#[trigger] s_primitive_intersect(objs[i], o, d)).hit
                implies s_scan_closest(objs, o, d, best).hit && s_scan_closest(objs, o, d, best).distance
            <= s_primitive_intersect(objs[i], o, d).distance by {
            if i == 0 {
                assert(nb.hit);
                assert(nb.distance <= h.distance);
            } else {
                assert(rest[i - 1] == objs[i]);
                assert(s_primitive_intersect(rest[i - 1], o, d).hit);
            }
        }
    }
}

/// Whenever any primitive in the scene is hit at all, the closest-hit
/// scan reports a hit, and at a distance no greater than that
/// primitive's.
pub proof fn lemma_closest_hit_is_minimal(objs: Seq<Primitive>, o: V3, d: V3)
    ensures
        forall|i: int|
            0 <= i < objs.len() && (#[trigger] s_primitive_intersect(objs[i], o, d)).hit
                ==> s_closest_hit(objs, o, d).hit,
        forall|i: int|
            0 <= i < objs.len() && (#[trigger] s_primitive_intersect(objs[i], o, d)).hit
                ==> s_closest_hit(objs, o, d).distance <= s_primitive_intersect(
                objs[i],
                o,
                d,
            ).distance,
{
    lemma_scan_closest_min(objs, o, d, s_empty_hit());
}

/// A ray that misses every primitive in the scene evaluates to exactly
/// the configured background color, at any depth.
pub proof fn lemma_miss_gives_background(
    o: V3,
    d: V3,
    objs: Seq<Primitive>,
    lights: Seq<Light>,
    depth: int,
    cfg: SConfig,
)
    requires
        !s_closest_hit(objs, o, d).hit,
    ensures
        s_cast_ray(o, d, objs, lights, depth, cfg) == cfg.background.sv(),
{
}

} // verus!
