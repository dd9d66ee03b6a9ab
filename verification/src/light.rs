//! The strobe that colours the background.

use vstd::prelude::*;

verus! {

/// How long the background keeps one colour, in nanoseconds.
pub const CYCLE: u64 = 300_000_000;

/// Degrees by which the hue moves on from one tint to the next.
pub const HUE_STEP: u64 = 20;

/// A colour. Hue in degrees, every other part in thousandths.
#[derive(Clone, Copy, PartialEq, Eq, Structural, Debug)]
pub enum Color {
    Hsl { hue: u16, saturation: u16, lightness: u16 },
    Rgb { red: u16, green: u16, blue: u16 },
}

/// The colour of the background when `elapsed` nanoseconds have passed. The
/// time is cut into spans of `CYCLE`. In every other span, starting with the
/// first, the background is a pale tint, and from one such span to the next
/// the tint moves `HUE_STEP` degrees round the colour wheel. In the spans
/// between it is white.
pub open spec fn strobe_color(elapsed: u64) -> Color {
    let span = elapsed / CYCLE;
    if span % 2 == 0 {
        Color::Hsl { hue: (span / 2 * HUE_STEP % 360) as u16, saturation: 1000, lightness: 980 }
    } else {
        Color::Rgb { red: 1000, green: 1000, blue: 1000 }
    }
}

/// The colour of the background when `elapsed` nanoseconds have passed.
pub fn strobe_light(elapsed: u64) -> (color: Color)
    ensures
        color == strobe_color(elapsed),
{
    let span: u64 = elapsed / CYCLE;
    if span % 2 == 0 {
        let hue: u64 = span / 2 * HUE_STEP % 360;
        Color::Hsl { hue: hue as u16, saturation: 1000, lightness: 980 }
    } else {
        Color::Rgb { red: 1000, green: 1000, blue: 1000 }
    }
}

} // verus!
