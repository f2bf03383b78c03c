//! The hue cycle and its clear color.

use vstd::prelude::*;
use vstd::arithmetic::div_mod::lemma_add_mod_noop;

verus! {

/// A color as the window's canvas takes it: one byte per channel.
#[derive(Clone, Copy, Debug, PartialEq, Eq, Structural)]
pub struct Rgb {
    pub r: u8,
    pub g: u8,
    pub b: u8,
}

/// The RGB triple that colors-transform computes for an HSL color with hue
/// `h` in degrees, saturation `s` and lightness `l` in percent. The
/// conversion depends on its arguments alone, so it gets a name rather than
/// a restatement of its formula.
pub uninterp spec fn rgb_of_hsl(h: int, s: int, l: int) -> (u8, u8, u8);

/// Relies on colors_transform's `Hsl::from` and the `Color` getters
/// `get_red`, `get_green` and `get_blue`: `Hsl::from` clamps each argument
/// into its range and never panics, and the conversion to RGB is a pure
/// function of hue, saturation and lightness.
#[verifier::external_body]
fn hsl_to_rgb(h: u16, s: u8, l: u8) -> (c: Rgb)
    ensures
        (c.r, c.g, c.b) == rgb_of_hsl(h as int, s as int, l as int),
{
    let hsl = colors_transform::Hsl::from(h.into(), s.into(), l.into());
    Rgb {
        r: colors_transform::Color::get_red(&hsl) as u8,
        g: colors_transform::Color::get_green(&hsl) as u8,
        b: colors_transform::Color::get_blue(&hsl) as u8,
    }
}

/// The clear color for a hue: the hue at full saturation and half
/// lightness, converted to RGB.
pub fn convert_hew_to_color(hew: u16) -> (c: Rgb)
    requires
        hew < 360,
    ensures
        (c.r, c.g, c.b) == rgb_of_hsl(hew as int, 100, 50),
{
    hsl_to_rgb(hew, 100, 50)
}

/// One tick of the hue cycle: forward one degree, wrapping at a full turn.
pub open spec fn next_hue(h: int) -> int {
    (h + 1) % 360
}

/// Advances the hue by one tick.
pub fn advance_hue(h: u16) -> (r: u16)
    requires
        h < 360,
    ensures
        r == next_hue(h as int),
        r < 360,
{
    (h + 1) % 360
}

/// The hue after `n` ticks, starting from zero.
pub open spec fn hue_after_ticks(n: nat) -> int
    decreases n,
{
    if n == 0 {
        0
    } else {
        next_hue(hue_after_ticks((n - 1) as nat))
    }
}

/// Law: starting from zero, the hue after `n` ticks is `n` modulo 360.
pub proof fn lemma_hue_after_ticks(n: nat)
    ensures
        hue_after_ticks(n) == n % 360,
    decreases n,
{
    if n > 0 {
        lemma_hue_after_ticks((n - 1) as nat);
        lemma_add_mod_noop(n - 1 as int, 1, 360);
    }
}

} // verus!
