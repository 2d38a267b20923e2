//! Surface materials: a diffuse color or image texture, a Phong exponent,
//! the four albedo weights, and a refractive index.
//!
//! The albedo weights are, in order: diffuse, specular, reflective and
//! refractive. They are not validated to sum to one; the shading engine's
//! final blend clamps every channel, so an over-unity combination can only
//! saturate, never wrap.

use vstd::prelude::*;

verus! {

use crate::color::Color;
use crate::fixed::FX_ONE;
use crate::fixed::fx_mul;
use crate::fixed::fx_sub;
use crate::fixed::fx_trunc;
use crate::fixed::s_mul;
use crate::fixed::s_sub;
use crate::fixed::s_trunc;
use crate::fixed::sat64;
use crate::texture::STexture;
use crate::texture::Texture;

/// Spec-level material.
pub struct SMaterial {
    pub diffuse: Color,
    pub specular: int,
    pub diffuse_k: int,
    pub specular_k: int,
    pub reflect_k: int,
    pub refract_k: int,
    pub refractive_index: int,
    pub has_texture: bool,
    pub texture: Option<STexture>,
}

/// A surface material. `albedo` holds the diffuse, specular, reflective
/// and refractive weights in fixed point; `specular` is the whole-number
/// Phong exponent.
#[derive(Clone, Debug)]
pub struct Material {
    pub diffuse: Color,
    pub specular: u32,
    pub albedo: [i64; 4],
    pub refractive_index: i64,
    pub has_texture: bool,
    pub texture: Option<Texture>,
}

impl Material {
    /// Well-formedness: a carried texture is itself well formed.
    pub open spec fn wf(self) -> bool {
        match self.texture {
            Some(t) => t.wf(),
            None => true,
        }
    }

    /// The spec-level image of this material.
    pub open spec fn sv(self) -> SMaterial {
        SMaterial {
            diffuse: self.diffuse,
            specular: self.specular as int,
            diffuse_k: self.albedo[0] as int,
            specular_k: self.albedo[1] as int,
            reflect_k: self.albedo[2] as int,
            refract_k: self.albedo[3] as int,
            refractive_index: self.refractive_index as int,
            has_texture: self.has_texture,
            texture: match self.texture {
                Some(t) => Some(t.sv()),
                None => None,
            },
        }
    }

    /// The all-absorbing material: black, with every weight zero; carried
    /// by the empty intersection record.
    pub fn black() -> (m: Material)
        ensures
            m.sv() == s_black_material(),
            m.wf(),
    {
        Material {
            diffuse: Color::black(),
            specular: 0,
            albedo: [0, 0, 0, 0],
            refractive_index: FX_ONE,
            has_texture: false,
            texture: None,
        }
    }

    /// An owned copy with the same spec-level image.
    pub fn duplicate(&self) -> (m: Material)
        ensures
            m.sv() == self.sv(),
            m.wf() <==> self.wf(),
    {
        Material {
            diffuse: self.diffuse,
            specular: self.specular,
            albedo: [self.albedo[0], self.albedo[1], self.albedo[2], self.albedo[3]],
            refractive_index: self.refractive_index,
            has_texture: self.has_texture,
            texture: match &self.texture {
                Some(t) => Some(
                    Texture { width: t.width, height: t.height, data: clone_colors(&t.data) },
                ),
                None => None,
            },
        }
    }

    /// The diffuse color at surface coordinates `(u, v)`: the nearest
    /// texture pixel with wrap-around on `u` and a vertical flip on `v`,
    /// or the flat diffuse color when no texture is carried.
    pub fn get_diffuse_color(&self, u: i64, v: i64) -> (c: Color)
        requires
            self.wf(),
        ensures
            c == s_diffuse_at(self.sv(), u as int, v as int),
    {
        match &self.texture {
            Some(t) => {
                let tx = texel_index(fx_mul(u, fx_from_dim(t.width)), t.width);
                let ty = texel_index(
                    fx_mul(fx_sub(FX_ONE, v), fx_from_dim(t.height)),
                    t.height,
                );
                t.get_color(tx, ty)
            },
            None => self.diffuse,
        }
    }
}

/// Spec image of the all-absorbing material.
pub open spec fn s_black_material() -> SMaterial {
    SMaterial {
        diffuse: (Color { r: 0, g: 0, b: 0 }),
        specular: 0,
        diffuse_k: 0,
        specular_k: 0,
        reflect_k: 0,
        refract_k: 0,
        refractive_index: FX_ONE as int,
        has_texture: false,
        texture: None,
    }
}

/// A scaled texture coordinate truncated toward zero, floored at zero as
/// a narrowing cast of a negative value would be, then wrapped by the
/// texture dimension.
pub open spec fn s_texel_index(scaled: int, dim: int) -> int {
    let t = s_trunc(scaled);
    let clamped = if t < 0 {
        0
    } else {
        t
    };
    clamped % dim
}

/// The diffuse color of a material at surface coordinates `(u, v)`.
pub open spec fn s_diffuse_at(m: SMaterial, u: int, v: int) -> Color {
    match m.texture {
        Some(t) => {
            let tx = s_texel_index(s_mul(u, sat64(t.width * 65536)), t.width);
            let ty = s_texel_index(
                s_mul(s_sub(FX_ONE as int, v), sat64(t.height * 65536)),
                t.height,
            );
            t.data[ty * t.width + tx]
        },
        None => m.diffuse,
    }
}

/// A texture dimension brought into fixed point.
fn fx_from_dim(dim: usize) -> (r: i64)
    requires
        dim < 0x1_0000_0000,
    ensures
        r as int == sat64(dim * 65536),
{
    (dim as i64) * 65536
}

/// A scaled texture coordinate wrapped into a valid index.
fn texel_index(scaled: i64, dim: usize) -> (r: usize)
    requires
        1 <= dim < 0x1_0000_0000,
    ensures
        r as int == s_texel_index(scaled as int, dim as int),
        r < dim,
{
    let t = fx_trunc(scaled);
    let clamped: u64 = if t < 0 {
        0
    } else {
        t as u64
    };
    let wrapped: u64 = clamped % (dim as u64);
    wrapped as usize
}

/// An element-for-element copy of a pixel array.
fn clone_colors(v: &Vec<Color>) -> (r: Vec<Color>)
    ensures
        r@ == v@,
{
    let mut out: Vec<Color> = Vec::new();
    let mut i: usize = 0;
    while i < v.len()
        invariant
            i <= v.len(),
            out@ == v@.take(i as int),
        decreases v.len() - i,
    {
        out.push(v[i]);
        proof {
            assert(v@.take(i + 1 as int) =~= v@.take(i as int).push(v@[i as int]));
        }
        i = i + 1;
    }
    proof {
        assert(v@.take(v@.len() as int) =~= v@);
    }
    out
}

} // verus!
