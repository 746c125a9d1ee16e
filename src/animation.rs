use vstd::prelude::*;

use crate::color::OurRGB8;

verus! {

/// Length of the hue-wheel phase cycle: five turns of the wheel.
pub const HUE_CYCLE: u16 = 1280;

/// Highest point of the breathing ramp.
pub const BREATH_PEAK: u16 = 170;

/// Added to the breathing ramp to give the brightness level.
pub const BREATH_FLOOR: u8 = 30;

/// The color wheel: red to blue, blue to green, green back to red, each
/// third of the wheel a linear ramp.
pub open spec fn wheel_spec(pos: u8) -> OurRGB8 {
    if pos < 85 {
        OurRGB8 { r: (255 - 3 * pos) as u8, g: 0, b: (3 * pos) as u8 }
    } else if pos < 170 {
        OurRGB8 { r: 0, g: (3 * (pos - 85)) as u8, b: (255 - 3 * (pos - 85)) as u8 }
    } else {
        OurRGB8 { r: (3 * (pos - 170)) as u8, g: (255 - 3 * (pos - 170)) as u8, b: 0 }
    }
}

/// The wheel position of LED `i` of `n` at phase `j`.
pub open spec fn hue_position(i: int, n: int, j: int) -> u8 {
    ((i * 256 / n + j) % 256) as u8
}

/// The color wheel at `pos`.
pub fn wheel(pos: u8) -> (c: OurRGB8)
    ensures
        c == wheel_spec(pos),
{
    if pos < 85 {
        OurRGB8::new(255 - 3 * pos, 0, 3 * pos)
    } else if pos < 170 {
        let t = pos - 85;
        OurRGB8::new(0, 3 * t, 255 - 3 * t)
    } else {
        let t = pos - 170;
        OurRGB8::new(3 * t, 255 - 3 * t, 0)
    }
}

/// The rainbow frame of `n` LEDs at phase `j`.
pub fn hue_frame(j: u16, n: usize) -> (out: Vec<OurRGB8>)
    ensures
        out@.len() == n,
        forall|i: int|
            0 <= i < n ==> #[trigger] out@[i] == wheel_spec(hue_position(i, n as int, j as int)),
{
    let mut out: Vec<OurRGB8> = Vec::with_capacity(n);
    let mut i: usize = 0;
    while i < n
        invariant
            i <= n,
            out@.len() == i,
            forall|k: int|
                0 <= k < i ==> #[trigger] out@[k] == wheel_spec(hue_position(k, n as int, j as int)),
        decreases n - i,
    {
        let offset: u128 = (i as u128) * 256 / (n as u128);
        assert(offset < 256) by (nonlinear_arith)
            requires
                offset == (i as int) * 256 / (n as int),
                0 <= i < n,
        ;
        let pos: u128 = (offset + j as u128) % 256;
        out.push(wheel(pos as u8));
        i = i + 1;
    }
    out
}

/// The triangle wave of the breathing ramp: up from 0 to the peak, then down.
pub open spec fn ramp(phase: int) -> int {
    if phase <= BREATH_PEAK {
        phase
    } else {
        2 * BREATH_PEAK - phase
    }
}

/// The phase of the hue-wheel animation.
pub struct HueWheel {
    j: u16,
}

impl View for HueWheel {
    type V = int;

    closed spec fn view(&self) -> int {
        self.j as int
    }
}

impl HueWheel {
    pub open spec fn wf(&self) -> bool {
        0 <= self@ < HUE_CYCLE
    }

    /// Phase 0.
    pub fn new() -> (h: HueWheel)
        ensures
            h.wf(),
            h@ == 0,
    {
        HueWheel { j: 0 }
    }

    /// The current phase.
    pub fn phase(&self) -> (j: u16)
        ensures
            j == self@,
    {
        self.j
    }

    /// The frame of `n` LEDs for the current phase.
    pub fn frame(&self, n: usize) -> (out: Vec<OurRGB8>)
        ensures
            out@.len() == n,
            forall|i: int|
                0 <= i < n ==> #[trigger] out@[i] == wheel_spec(hue_position(i, n as int, self@)),
    {
        hue_frame(self.j, n)
    }

    /// Moves one step along the cycle, wrapping at its end.
    pub fn advance(&mut self)
        requires
            old(self).wf(),
        ensures
            final(self).wf(),
            final(self)@ == (old(self)@ + 1) % (HUE_CYCLE as int),
    {
        self.j = (self.j + 1) % HUE_CYCLE;
    }
}

/// The phase of the breathing animation, one step per render tick.
pub struct Breathing {
    phase: u16,
}

impl View for Breathing {
    type V = int;

    closed spec fn view(&self) -> int {
        self.phase as int
    }
}

impl Breathing {
    pub open spec fn wf(&self) -> bool {
        0 <= self@ < 2 * BREATH_PEAK
    }

    /// The brightness level at a phase.
    pub open spec fn level_spec(phase: int) -> u8 {
        (ramp(phase) + BREATH_FLOOR) as u8
    }

    /// Phase 0: the dimmest point.
    pub fn new() -> (b: Breathing)
        ensures
            b.wf(),
            b@ == 0,
    {
        Breathing { phase: 0 }
    }

    /// The brightness level of the current phase: the ramp plus the floor.
    pub fn level(&self) -> (l: u8)
        requires
            self.wf(),
        ensures
            l == Breathing::level_spec(self@),
            BREATH_FLOOR <= l <= BREATH_PEAK + BREATH_FLOOR,
    {
        let up: u16 = if self.phase <= BREATH_PEAK {
            self.phase
        } else {
            2 * BREATH_PEAK - self.phase
        };
        (up as u8) + BREATH_FLOOR
    }

    /// Moves one step along the ramp, wrapping at the end of the cycle.
    pub fn advance(&mut self)
        requires
            old(self).wf(),
        ensures
            final(self).wf(),
            final(self)@ == (old(self)@ + 1) % (2 * BREATH_PEAK as int),
    {
        self.phase = (self.phase + 1) % (2 * BREATH_PEAK);
    }
}

} // verus!
