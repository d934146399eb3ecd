//! Colours, and the two colour conversions that `smart_leds` supplies.

use smart_leds::hsv::{hsv2rgb, Hsv};
use smart_leds::{gamma, RGB8};
use vstd::prelude::*;

verus! {

/// Number of LEDs on the strip.
pub const LED_NUM: usize = 8;

/// One LED's colour.
#[derive(Debug, Clone, Copy, PartialEq, Eq, Structural)]
pub struct Rgb {
    pub r: u8,
    pub g: u8,
    pub b: u8,
}

impl Rgb {
    /// The colour of an LED that is switched off: no red, no green, no blue.
    pub open spec fn spec_off() -> Rgb {
        Rgb { r: 0, g: 0, b: 0 }
    }

    /// An LED that is switched off.
    #[verifier::when_used_as_spec(spec_off)]
    pub fn off() -> (color: Rgb)
        ensures
            color == Rgb::spec_off(),
    {
        Rgb { r: 0, g: 0, b: 0 }
    }
}

/// The red, green and blue levels that `smart_leds::hsv::hsv2rgb` returns for
/// a hue, a saturation and a value.
pub uninterp spec fn hsv2rgb_levels(hue: u8, sat: u8, val: u8) -> (u8, u8, u8);

/// The level onto which the table of `smart_leds::gamma` maps a level.
pub uninterp spec fn gamma_level(level: u8) -> u8;

/// The colour of a hue, a saturation and a value, before gamma correction.
pub open spec fn hsv_color(hue: u8, sat: u8, val: u8) -> Rgb {
    let (r, g, b) = hsv2rgb_levels(hue, sat, val);
    Rgb { r, g, b }
}

/// A colour after gamma correction.
pub open spec fn gamma_color(color: Rgb) -> Rgb {
    Rgb { r: gamma_level(color.r), g: gamma_level(color.g), b: gamma_level(color.b) }
}

/// Calls `smart_leds::hsv::hsv2rgb`.
///
/// Trusted: the result is a function of the three arguments alone, which
/// `hsv2rgb_levels` names. The conversion is integer arithmetic on `u16` that
/// stays below 65536 for every input, so it returns for every input.
#[verifier::external_body]
pub(crate) fn hsv_to_rgb(hue: u8, sat: u8, val: u8) -> (color: Rgb)
    ensures
        (color.r, color.g, color.b) == hsv2rgb_levels(hue, sat, val),
{
    let c = hsv2rgb(Hsv { hue, sat, val });
    Rgb { r: c.r, g: c.g, b: c.b }
}

/// Calls `smart_leds::gamma` on the colours of a frame.
///
/// Trusted: the adaptor yields one colour for each colour that it is given,
/// in the same order, and looks each of the three levels up in one fixed
/// table of 256 entries, which `gamma_level` names.
#[verifier::external_body]
pub(crate) fn gamma_frame(frame: &[Rgb; LED_NUM]) -> (lit: [Rgb; LED_NUM])
    ensures
        forall|i: int|
            0 <= i < LED_NUM ==> {
                &&& (#[trigger] lit@[i]).r == gamma_level(frame@[i].r)
                &&& lit@[i].g == gamma_level(frame@[i].g)
                &&& lit@[i].b == gamma_level(frame@[i].b)
            },
{
    let mut lit = *frame;
    let corrected = gamma(frame.iter().map(|c| RGB8 { r: c.r, g: c.g, b: c.b }));
    for (slot, c) in lit.iter_mut().zip(corrected) {
        *slot = Rgb { r: c.r, g: c.g, b: c.b };
    }
    lit
}

} // verus!
