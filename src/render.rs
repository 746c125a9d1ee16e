use vstd::prelude::*;

use crate::animation::{hue_position, wheel_spec, Breathing, HueWheel, BREATH_PEAK, HUE_CYCLE};
use crate::color::OurRGB8;
use crate::controls::LedControls;
use crate::correct::{correct_frame, correct_spec, gamma_frame, gamma_spec};

verus! {

/// The global-mode frame of `n` LEDs at brightness `level`: the corrected
/// color on every LED while the power is on, `(0, 0, 0)` on every LED
/// while it is off.
pub open spec fn global_pixel(controls: LedControls, level: u8) -> OurRGB8 {
    if controls.power {
        correct_spec(controls.color, level)
    } else {
        OurRGB8::black()
    }
}

/// Renders the global-mode record to a frame of `n` LEDs.
pub fn render_global(controls: LedControls, level: u8, n: usize) -> (out: Vec<OurRGB8>)
    ensures
        out@.len() == n,
        forall|i: int| 0 <= i < n ==> #[trigger] out@[i] == global_pixel(controls, level),
        !controls.power ==> forall|i: int| 0 <= i < n ==> (#[trigger] out@[i]).is_black(),
{
    let mut raw: Vec<OurRGB8> = Vec::with_capacity(n);
    let fill = if controls.power {
        controls.color
    } else {
        OurRGB8::new(0, 0, 0)
    };
    let mut i: usize = 0;
    while i < n
        invariant
            i <= n,
            raw@.len() == i,
            forall|k: int| 0 <= k < i ==> #[trigger] raw@[k] == fill,
        decreases n - i,
    {
        raw.push(fill);
        i = i + 1;
    }
    if controls.power {
        let out = correct_frame(&raw, level);
        assert forall|i: int| 0 <= i < n implies #[trigger] out@[i] == global_pixel(controls, level) by {
            assert(raw@[i] == fill);
        }
        out
    } else {
        raw
    }
}

/// Renders an addressable-mode snapshot: every stored color gamma-corrected,
/// in index order.
pub fn render_addressable(snapshot: &Vec<OurRGB8>) -> (out: Vec<OurRGB8>)
    ensures
        out@.len() == snapshot@.len(),
        forall|i: int| 0 <= i < snapshot@.len() ==> out@[i] == gamma_spec(#[trigger] snapshot@[i]),
{
    gamma_frame(snapshot)
}

/// The procedural animation of a global-mode deployment.
pub enum Animation {
    /// The record's color pulsing dim to bright to dim.
    Breathing(Breathing),
    /// A rainbow moving along the strip.
    HueWheel(HueWheel),
}

impl Animation {
    pub open spec fn wf(&self) -> bool {
        match self {
            Animation::Breathing(b) => b.wf(),
            Animation::HueWheel(h) => h.wf(),
        }
    }

    /// The animation one tick on.
    pub open spec fn stepped(self, next: Animation) -> bool {
        match (self, next) {
            (Animation::Breathing(a), Animation::Breathing(b)) => b@ == (a@ + 1) % (2 * BREATH_PEAK as int),
            (Animation::HueWheel(a), Animation::HueWheel(b)) => b@ == (a@ + 1) % (HUE_CYCLE as int),
            _ => false,
        }
    }
}

/// The color of LED `i` of `n` in global mode: `(0, 0, 0)` while the power
/// is off; while it is on, the record's color corrected at the breathing
/// level, or the hue wheel's color for that LED.
pub open spec fn animated_pixel(anim: Animation, controls: LedControls, i: int, n: int) -> OurRGB8 {
    if !controls.power {
        OurRGB8::black()
    } else {
        match anim {
            Animation::Breathing(b) => correct_spec(controls.color, Breathing::level_spec(b@)),
            Animation::HueWheel(h) => wheel_spec(hue_position(i, n, h@)),
        }
    }
}

/// The render loop of the global mode: one frame per tick, the animation
/// phase advancing by one step per tick.
pub struct GlobalRenderer {
    pub animation: Animation,
}

impl GlobalRenderer {
    pub open spec fn wf(&self) -> bool {
        self.animation.wf()
    }

    /// A renderer at the start of the breathing animation.
    pub fn breathing() -> (r: GlobalRenderer)
        ensures
            r.wf(),
            r.animation matches Animation::Breathing(b) && b@ == 0,
    {
        GlobalRenderer { animation: Animation::Breathing(Breathing::new()) }
    }

    /// A renderer at the start of the hue-wheel animation.
    pub fn hue_wheel() -> (r: GlobalRenderer)
        ensures
            r.wf(),
            r.animation matches Animation::HueWheel(h) && h@ == 0,
    {
        GlobalRenderer { animation: Animation::HueWheel(HueWheel::new()) }
    }

    /// Renders one tick of `n` LEDs from a copy of the record and moves the
    /// animation on.
    pub fn tick(&mut self, controls: LedControls, n: usize) -> (out: Vec<OurRGB8>)
        requires
            old(self).wf(),
        ensures
            final(self).wf(),
            old(self).animation.stepped(final(self).animation),
            out@.len() == n,
            forall|i: int|
                0 <= i < n ==> #[trigger] out@[i] == animated_pixel(old(self).animation, controls, i, n as int),
            !controls.power ==> forall|i: int| 0 <= i < n ==> (#[trigger] out@[i]).is_black(),
    {
        match &mut self.animation {
            Animation::Breathing(b) => {
                let level = b.level();
                let out = render_global(controls, level, n);
                b.advance();
                out
            },
            Animation::HueWheel(h) => {
                let out = if controls.power {
                    h.frame(n)
                } else {
                    render_global(controls, 0, n)
                };
                h.advance();
                out
            },
        }
    }
}

/// When the next render tick is due. `deadline` is the instant the tick
/// that just ended was scheduled for and `now` the instant it ended. The
/// next tick is one period after the last one; if the render overran that,
/// it is due at once, and the missed ticks are dropped rather than fired
/// back to back.
pub fn next_tick(deadline: u64, now: u64, period: u64) -> (next: u64)
    requires
        deadline + period <= u64::MAX,
    ensures
        next == (if now < deadline + period { deadline + period } else { now as int }),
        next >= now,
{
    let due = deadline + period;
    if now < due {
        due
    } else {
        now
    }
}

} // verus!
