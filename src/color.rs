use vstd::prelude::*;

verus! {

/// An 8-bit RGB color, as stored in texture pixels.
#[derive(Clone, Copy, Debug, PartialEq, Eq, Structural)]
pub struct Rgb {
    pub r: u8,
    pub g: u8,
    pub b: u8,
}

/// The color returned wherever a lookup has nothing to return.
pub open spec fn white() -> Rgb {
    Rgb { r: 255, g: 255, b: 255 }
}

impl Rgb {
    /// Full-intensity white, the fallback of every texture lookup.
    pub fn white() -> (c: Rgb)
        ensures
            c == white(),
    {
        Rgb { r: 255, g: 255, b: 255 }
    }

    /// Keeps the red, green and blue channels of an RGBA quadruple.
    pub fn from_rgba(rgba: (u8, u8, u8, u8)) -> (c: Rgb)
        ensures
            c == (Rgb { r: rgba.0, g: rgba.1, b: rgba.2 }),
    {
        Rgb { r: rgba.0, g: rgba.1, b: rgba.2 }
    }
}

} // verus!
