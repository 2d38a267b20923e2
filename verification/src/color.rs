//! Eight-bit RGB color with saturating arithmetic.
//!
//! Channels combine by clamped addition and are scaled by fixed-point
//! factors with truncation toward zero, so a channel can never wrap past
//! 255 nor fall below 0.

use vstd::prelude::*;

verus! {

use crate::fixed::fx_mul;
use crate::fixed::fx_trunc;
use crate::fixed::s_mul;
use crate::fixed::s_trunc;

/// Spec-level color: the exact integer images of the three channels.
pub struct SColor {
    pub r: int,
    pub g: int,
    pub b: int,
}

/// An RGB color, eight bits per channel.
#[derive(Clone, Copy, PartialEq, Eq, Structural, Debug)]
pub struct Color {
    pub r: u8,
    pub g: u8,
    pub b: u8,
}

/// Clamp of a channel value to the representable range 0 to 255.
pub open spec fn s_sat255(x: int) -> int {
    if x < 0 {
        0
    } else if x > 255 {
        255
    } else {
        x
    }
}

/// Clamped channel sum.
pub open spec fn s_cadd_ch(a: int, b: int) -> int {
    s_sat255(a + b)
}

/// A channel scaled by a fixed-point factor: the channel value is brought
/// into fixed point, multiplied, truncated back to a whole number and
/// clamped to the channel range.
pub open spec fn s_cscale_ch(ch: int, k: int) -> int {
    s_sat255(s_trunc(s_mul(ch * 65536, k)))
}

impl Color {
    /// The spec-level image of this color.
    pub open spec fn sv(self) -> SColor {
        SColor { r: self.r as int, g: self.g as int, b: self.b as int }
    }

    /// A color from its three channels.
    pub fn new(r: u8, g: u8, b: u8) -> (c: Color)
        ensures
            c.sv() == (SColor { r: r as int, g: g as int, b: b as int }),
    {
        Color { r, g, b }
    }

    /// Black: all channels zero.
    pub fn black() -> (c: Color)
        ensures
            c.sv() == (SColor { r: 0, g: 0, b: 0 }),
    {
        Color { r: 0, g: 0, b: 0 }
    }

    /// Saturating channelwise sum of two colors.
    pub fn add_sat(&self, other: &Color) -> (c: Color)
        ensures
            c.sv() == s_cadd(self.sv(), other.sv()),
    {
        let r16: u16 = self.r as u16 + other.r as u16;
        let g16: u16 = self.g as u16 + other.g as u16;
        let b16: u16 = self.b as u16 + other.b as u16;
        Color {
            r: if r16 > 255 { 255 } else { r16 as u8 },
            g: if g16 > 255 { 255 } else { g16 as u8 },
            b: if b16 > 255 { 255 } else { b16 as u8 },
        }
    }

    /// This color with every channel scaled by a fixed-point factor.
    pub fn scale_fx(&self, k: i64) -> (c: Color)
        ensures
            c.sv() == s_cscale(self.sv(), k as int),
    {
        Color {
            r: scale_channel(self.r, k),
            g: scale_channel(self.g, k),
            b: scale_channel(self.b, k),
        }
    }
}

/// Saturating channelwise sum.
pub open spec fn s_cadd(a: SColor, b: SColor) -> SColor {
    SColor { r: s_cadd_ch(a.r, b.r), g: s_cadd_ch(a.g, b.g), b: s_cadd_ch(a.b, b.b) }
}

/// A color with every channel scaled by a fixed-point factor.
pub open spec fn s_cscale(c: SColor, k: int) -> SColor {
    SColor { r: s_cscale_ch(c.r, k), g: s_cscale_ch(c.g, k), b: s_cscale_ch(c.b, k) }
}

/// One channel scaled by a fixed-point factor.
fn scale_channel(ch: u8, k: i64) -> (r: u8)
    ensures
        r as int == s_cscale_ch(ch as int, k as int),
{
    let v: i64 = fx_mul((ch as i64) * 65536, k);
    let t: i64 = fx_trunc(v);
    if t < 0 {
        0
    } else if t > 255 {
        255
    } else {
        t as u8
    }
}

/// A channel combination that would exceed 255 is pinned at 255; one that
/// stays in range is kept exactly; no sum ever wraps.
pub proof fn lemma_channel_sum_saturates(a: int, b: int)
    requires
        0 <= a <= 255,
        0 <= b <= 255,
    ensures
        0 <= s_cadd_ch(a, b) <= 255,
        a + b > 255 ==> s_cadd_ch(a, b) == 255,
        a + b <= 255 ==> s_cadd_ch(a, b) == a + b,
{
}

/// A scaled channel always lands inside the representable range.
pub proof fn lemma_channel_scale_in_range(ch: int, k: int)
    ensures
        0 <= s_cscale_ch(ch, k) <= 255,
{
}

} // verus!
