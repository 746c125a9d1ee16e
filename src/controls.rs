use vstd::prelude::*;

use crate::color::OurRGB8;

verus! {

/// The global-mode record: one color for the whole strip and a power switch.
#[derive(Clone, Copy, Debug, PartialEq, Eq, Structural)]
pub struct LedControls {
    pub color: OurRGB8,
    pub power: bool,
}

impl LedControls {
    /// The record at start-up: color `(0, 0, 0)`, power off.
    pub fn new() -> (s: LedControls)
        ensures
            s.color == OurRGB8::black(),
            !s.power,
    {
        LedControls { color: OurRGB8::new(0, 0, 0), power: false }
    }

    /// Flips the power switch and keeps the color.
    pub fn toggle_power(&mut self)
        ensures
            final(self).power == !old(self).power,
            final(self).color == old(self).color,
    {
        self.power = !self.power;
    }

    /// Replaces the color and keeps the power switch.
    pub fn set_color(&mut self, c: OurRGB8)
        ensures
            final(self).color == c,
            final(self).power == old(self).power,
    {
        self.color = c;
    }

    /// Sets the power switch and keeps the color.
    pub fn set_power(&mut self, on: bool)
        ensures
            final(self).power == on,
            final(self).color == old(self).color,
    {
        self.power = on;
    }
}

} // verus!
