use vstd::prelude::*;

verus! {

/// An RGB colour, as the renderer consumes it.
#[derive(Copy, Clone, PartialEq, Eq, Structural, Debug)]
pub struct Colour {
    pub r: u8,
    pub g: u8,
    pub b: u8,
}

impl Colour {
    /// The colour packed as `0xRRGGBB`.
    pub open spec fn spec_as_i(self) -> int {
        self.r * 0x10000 + self.g * 0x100 + self.b
    }

    pub fn new(r: u8, g: u8, b: u8) -> (c: Colour)
        ensures
            c == (Colour { r, g, b }),
    {
        Colour { r, g, b }
    }

    /// The colour as an RGBA byte quadruple, fully opaque.
    pub fn as_uarr(&self) -> (a: [u8; 4])
        ensures
            a@ =~= seq![self.r, self.g, self.b, 255u8],
    {
        [self.r, self.g, self.b, 255]
    }

    /// The colour packed into the low 24 bits of an `i32`.
    pub fn as_i(&self) -> (i: i32)
        ensures
            i == self.spec_as_i(),
    {
        let r32 = self.r as i32;
        let g32 = self.g as i32;
        let b32 = self.b as i32;
        r32 * 0x10000 + g32 * 0x100 + b32
    }

    /// Whether `i` is this colour's packed form.
    pub fn i_eq(&self, i: i32) -> (eq: bool)
        ensures
            eq == (i == self.spec_as_i()),
    {
        i == self.as_i()
    }
}

} // verus!
