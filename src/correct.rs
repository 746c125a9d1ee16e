use vstd::prelude::*;

use crate::color::OurRGB8;

verus! {

/// What smart-leds' gamma table maps one raw channel value to.
pub uninterp spec fn gamma8(c: u8) -> u8;

/// A color with each channel passed through the gamma table.
pub open spec fn gamma_spec(c: OurRGB8) -> OurRGB8 {
    OurRGB8 { r: gamma8(c.r), g: gamma8(c.g), b: gamma8(c.b) }
}

/// One channel scaled by a brightness level: `c * (level + 1) / 256`,
/// rounded down, so that level 255 keeps the channel as it is.
pub open spec fn scale_channel(c: u8, level: u8) -> u8 {
    (c as int * (level as int + 1) / 256) as u8
}

pub open spec fn scale_spec(c: OurRGB8, level: u8) -> OurRGB8 {
    OurRGB8 {
        r: scale_channel(c.r, level),
        g: scale_channel(c.g, level),
        b: scale_channel(c.b, level),
    }
}

/// Gamma first, then brightness scaling of the gamma-corrected channels.
pub open spec fn correct_spec(c: OurRGB8, level: u8) -> OurRGB8 {
    scale_spec(gamma_spec(c), level)
}

/// Relies on `smart_leds::gamma`: it yields, in order, one color per input
/// color, each channel looked up in the crate's fixed gamma table.
#[verifier::external_body]
fn gamma_all(colors: &Vec<OurRGB8>) -> (out: Vec<OurRGB8>)
    ensures
        out@.len() == colors@.len(),
        forall|i: int|
            0 <= i < colors@.len() ==> (#[trigger] out@[i]) == (OurRGB8 {
                r: gamma8(colors@[i].r),
                g: gamma8(colors@[i].g),
                b: gamma8(colors@[i].b),
            }),
{
    smart_leds::gamma(colors.iter().map(|c| smart_leds::RGB8::new(c.r, c.g, c.b)))
        .map(|c| OurRGB8 { r: c.r, g: c.g, b: c.b })
        .collect()
}

/// Relies on `smart_leds::brightness`: it yields, in order, one color per
/// input color, each channel computed as `c * (level + 1) / 256` in `u16`.
#[verifier::external_body]
fn brightness_all(colors: &Vec<OurRGB8>, level: u8) -> (out: Vec<OurRGB8>)
    ensures
        out@.len() == colors@.len(),
        forall|i: int|
            0 <= i < colors@.len() ==> (#[trigger] out@[i]) == scale_spec(colors@[i], level),
{
    smart_leds::brightness(colors.iter().map(|c| smart_leds::RGB8::new(c.r, c.g, c.b)), level)
        .map(|c| OurRGB8 { r: c.r, g: c.g, b: c.b })
        .collect()
}

/// Gamma-corrects every color of a frame, keeping the order.
pub fn gamma_frame(raw: &Vec<OurRGB8>) -> (out: Vec<OurRGB8>)
    ensures
        out@.len() == raw@.len(),
        forall|i: int| 0 <= i < raw@.len() ==> out@[i] == gamma_spec(#[trigger] raw@[i]),
{
    gamma_all(raw)
}

/// Gamma-corrects every color of a frame, then scales it by `level`.
pub fn correct_frame(raw: &Vec<OurRGB8>, level: u8) -> (out: Vec<OurRGB8>)
    ensures
        out@.len() == raw@.len(),
        forall|i: int| 0 <= i < raw@.len() ==> out@[i] == correct_spec(#[trigger] raw@[i], level),
{
    let g = gamma_all(raw);
    brightness_all(&g, level)
}

/// Gamma-corrects one color, then scales it by `level`.
pub fn correct(raw: OurRGB8, level: u8) -> (out: OurRGB8)
    ensures
        out == correct_spec(raw, level),
{
    let one = vec![raw];
    let frame = correct_frame(&one, level);
    frame[0]
}

} // verus!
