use vstd::prelude::*;

use crate::color::{white, Rgb};

verus! {

/// A texture kept in main memory so that it can be sampled while tracing.
/// `pixels` holds the image row by row, `width` pixels per row.
pub struct CpuTexture {
    pub width: i32,
    pub height: i32,
    pub pixels: Vec<Rgb>,
}

/// The pixel at column `tx` and row `ty` of a texture whose rows are `width`
/// long, or white where that position falls outside the pixel buffer.
pub open spec fn texel_of(width: int, pixels: Seq<Rgb>, tx: int, ty: int) -> Rgb {
    let index = ty * width + tx;
    if 0 <= index < pixels.len() {
        pixels[index]
    } else {
        white()
    }
}

/// The RGB part of each RGBA quadruple, in order.
pub open spec fn rgb_of_rgba(colors: Seq<(u8, u8, u8, u8)>) -> Seq<Rgb> {
    colors.map_values(|c: (u8, u8, u8, u8)| Rgb { r: c.0, g: c.1, b: c.2 })
}

impl CpuTexture {
    /// Builds a texture from the RGBA pixels of a decoded image, dropping the
    /// alpha channel.
    pub fn from_image(width: i32, height: i32, colors: &Vec<(u8, u8, u8, u8)>) -> (t: CpuTexture)
        ensures
            t.width == width,
            t.height == height,
            t.pixels@ == rgb_of_rgba(colors@),
    {
        let mut pixels: Vec<Rgb> = Vec::with_capacity(colors.len());
        let mut i: usize = 0;
        while i < colors.len()
            invariant
                i <= colors@.len(),
                pixels@ == rgb_of_rgba(colors@.take(i as int)),
            decreases colors@.len() - i,
        {
            pixels.push(Rgb::from_rgba(colors[i]));
            proof {
                assert(colors@.take(i + 1) == colors@.take(i as int).push(colors@[i as int]));
            }
            i = i + 1;
        }
        proof {
            assert(colors@.take(colors@.len() as int) == colors@);
        }
        CpuTexture { width, height, pixels }
    }

    /// The pixel at column `tx`, row `ty`; white where the position lies
    /// outside the pixel buffer.
    pub fn texel(&self, tx: i32, ty: i32) -> (c: Rgb)
        ensures
            c == texel_of(self.width as int, self.pixels@, tx as int, ty as int),
    {
        let w: i64 = self.width as i64;
        let y: i64 = ty as i64;
        assert(-0x4000_0000_0000_0000 <= y * w <= 0x4000_0000_0000_0000) by (nonlinear_arith)
            requires
                -0x8000_0000 <= y <= 0x7fff_ffff,
                -0x8000_0000 <= w <= 0x7fff_ffff,
        ;
        let index: i64 = y * w + tx as i64;
        if 0 <= index && (index as u64) < (self.pixels.len() as u64) {
            self.pixels[index as usize]
        } else {
            Rgb::white()
        }
    }
}

} // verus!
