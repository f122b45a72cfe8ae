//! Colors in the native four-channel form, and the exact arithmetic behind
//! the abstract-to-native opacity conversion.
//!
//! The abstract side of the adapter describes a color as a red/green/blue
//! triple together with an opacity in the closed unit interval; the native
//! side wants four channels ranging over `0..=255`. The red, green and blue
//! channels carry over unchanged, and the opacity is scaled by 255 and
//! rounded to the nearest channel value. The rounding is stated here over
//! exact fractions (an opacity `num / den`), so its accuracy can be proved
//! once for every representation the unverified shell may feed in.

use vstd::prelude::*;
use vstd::arithmetic::div_mod::lemma_fundamental_div_mod;

verus! {

/// A color in the native four-channel form: red, green, blue and an opacity
/// channel, each ranging over `0..=255`.
#[derive(Clone, Copy, Debug, PartialEq, Eq, Structural)]
pub struct Rgba {
    pub r: u8,
    pub g: u8,
    pub b: u8,
    pub a: u8,
}

impl Rgba {
    /// Fully opaque white, the canvas background every session starts from.
    pub fn white() -> (c: Rgba)
        ensures
            c == (Rgba { r: 255, g: 255, b: 255, a: 255 }),
    {
        Rgba { r: 255, g: 255, b: 255, a: 255 }
    }
}

/// The native opacity channel for an abstract opacity `num / den`: the
/// fraction scaled by 255 and rounded to the nearest integer (ties go up,
/// which never arises while `den` stays clear of multiples of 510).
pub open spec fn alpha_channel(num: int, den: int) -> int {
    (510 * num + den) / (2 * den)
}

/// An opacity that is already a whole number of channel steps converts to
/// exactly that channel: scaling `c / 255` by 255 and rounding gives back
/// `c`. In particular a native color sent through the abstract side and
/// converted again keeps its opacity channel bit for bit, and the red, green
/// and blue channels never change at all.
pub proof fn lemma_alpha_channel_exact(c: int)
    requires
        0 <= c <= 255,
    ensures
        alpha_channel(c, 255) == c,
{
    assert((510 * c + 255) / 510 == c) by (nonlinear_arith)
        requires 0 <= c <= 255;
}

/// Rounding loses at most half a channel step: for any abstract opacity
/// `num / den` in the unit interval, the chosen channel `c` satisfies
/// `|num / den - c / 255| <= 1 / 510`, stated here with both sides scaled by
/// `510 * den` to stay in the integers. The channel also always lands in
/// `0..=255`.
pub proof fn lemma_alpha_channel_accuracy(num: int, den: int)
    requires
        0 <= num <= den,
        1 <= den,
    ensures
        0 <= alpha_channel(num, den) <= 255,
        -den <= 510 * num - 2 * den * alpha_channel(num, den) <= den,
{
    let c = alpha_channel(num, den);
    lemma_fundamental_div_mod(510 * num + den, 2 * den);
    let rem = (510 * num + den) % (2 * den);
    assert(0 <= rem < 2 * den) by (nonlinear_arith)
        requires 1 <= den, rem == (510 * num + den) % (2 * den);
    assert(510 * num - 2 * den * c == rem - den);
    assert(0 <= c <= 255) by (nonlinear_arith)
        requires
            0 <= num <= den,
            1 <= den,
            510 * num + den == 2 * den * c + rem,
            0 <= rem < 2 * den;
}

} // verus!
