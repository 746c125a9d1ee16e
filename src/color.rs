use vstd::prelude::*;

verus! {

/// An 8-bit-per-channel RGB color.
#[derive(Clone, Copy, Debug, PartialEq, Eq, Structural)]
pub struct OurRGB8 {
    pub r: u8,
    pub g: u8,
    pub b: u8,
}

impl OurRGB8 {
    /// The color with the given channels.
    pub fn new(r: u8, g: u8, b: u8) -> (c: OurRGB8)
        ensures
            c == (OurRGB8 { r, g, b }),
    {
        OurRGB8 { r, g, b }
    }

    /// The color `(0, 0, 0)`, the store's default.
    pub open spec fn black() -> OurRGB8 {
        OurRGB8 { r: 0, g: 0, b: 0 }
    }

    pub open spec fn is_black(self) -> bool {
        self == OurRGB8::black()
    }
}

impl Default for OurRGB8 {
    fn default() -> (c: OurRGB8)
        ensures
            c == OurRGB8::black(),
    {
        OurRGB8 { r: 0, g: 0, b: 0 }
    }
}

} // verus!
