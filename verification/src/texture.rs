//! Image textures: a width, a height, and a flattened row-major pixel
//! array with row zero at the top.

use vstd::prelude::*;

verus! {

use crate::color::Color;
use vstd::arithmetic::mul::lemma_mul_inequality;

/// Spec-level texture: exact dimensions and the pixel sequence.
pub struct STexture {
    pub width: int,
    pub height: int,
    pub data: Seq<Color>,
}

/// A decoded image: `data` holds `width * height` pixels row by row,
/// row zero at the top.
#[derive(Clone, Debug)]
pub struct Texture {
    pub width: usize,
    pub height: usize,
    pub data: Vec<Color>,
}

impl Texture {
    /// Well-formedness: positive dimensions small enough to index with,
    /// and exactly one pixel per cell.
    pub open spec fn wf(self) -> bool {
        &&& 1 <= self.width < 0x1_0000_0000
        &&& 1 <= self.height < 0x1_0000_0000
        &&& self.data@.len() == self.width * self.height
    }

    /// The spec-level image of this texture.
    pub open spec fn sv(self) -> STexture {
        STexture { width: self.width as int, height: self.height as int, data: self.data@ }
    }

    /// A texture from its dimensions and pixel array.
    pub fn new(width: usize, height: usize, data: Vec<Color>) -> (t: Texture)
        requires
            1 <= width < 0x1_0000_0000,
            1 <= height < 0x1_0000_0000,
            data@.len() == width * height,
        ensures
            t.wf(),
            t.sv() == (STexture { width: width as int, height: height as int, data: data@ }),
    {
        Texture { width, height, data }
    }

    /// The pixel in column `x` of row `y`.
    pub fn get_color(&self, x: usize, y: usize) -> (c: Color)
        requires
            self.wf(),
            x < self.width,
            y < self.height,
        ensures
            c == self.data@[y * self.width + x],
    {
        let total: usize = self.data.len();
        proof {
            lemma_mul_inequality(y as int + 1, self.height as int, self.width as int);
            assert((y + 1) * self.width == y * self.width + self.width) by (nonlinear_arith);
            assert((self.height as int) * (self.width as int) == (self.width as int) * (
            self.height as int)) by (nonlinear_arith);
        }
        self.data[y * self.width + x]
    }
}

} // verus!
