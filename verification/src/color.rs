//! 32-bit RGBA color

use vstd::prelude::*;

verus! {

/// The four 8-bit channels of a color, as FNA3D lays them out
#[derive(Debug, Clone, Copy, PartialEq, Eq, Hash, Structural)]
pub struct RawColor {
    pub r: u8,
    pub g: u8,
    pub b: u8,
    pub a: u8,
}

/// 32-bit RGBA color; two colors are equal when all four channels are
#[derive(Debug, Clone, Copy, PartialEq, Eq, Structural)]
pub struct Color {
    raw: RawColor,
}

impl View for Color {
    type V = RawColor;

    closed spec fn view(&self) -> RawColor {
        self.raw
    }
}

/// Channel value premultiplied by alpha, rounding down
pub open spec fn premultiplied(c: u8, a: u8) -> u8 {
    ((c * a) / 255) as u8
}

/// Premultiplying scales a channel by alpha over 255 and rounds down: the result times 255 is at
/// most the product of channel and alpha, and less than 255 below it. Full alpha keeps the
/// channel, zero alpha makes it 0, and the result never exceeds the channel or alpha.
pub proof fn lemma_premultiplied(c: u8, a: u8)
    ensures
        premultiplied(c, a) * 255 <= c * a,
        c * a < premultiplied(c, a) * 255 + 255,
        premultiplied(c, 255) == c,
        premultiplied(c, 0) == 0,
        premultiplied(c, a) <= c,
        premultiplied(c, a) <= a,
{
    let p: int = c * a;
    assert(0 <= p <= 65025) by (nonlinear_arith)
        requires
            p == c * a,
            c <= 255,
            a <= 255,
    ;
    assert(p / 255 * 255 <= p && p < p / 255 * 255 + 255) by (nonlinear_arith)
        requires
            0 <= p,
    ;
    assert(p / 255 <= c && p / 255 <= a) by (nonlinear_arith)
        requires
            p == c * a,
            c <= 255,
            a <= 255,
    ;
    assert(c * 255 / 255 == c) by (nonlinear_arith);
}

/// Channel value premultiplied by alpha, with the product taken in 32 bits
fn premultiply(c: u8, a: u8) -> (r: u8)
    ensures
        r == premultiplied(c, a),
        r <= c,
        r <= a,
{
    assert((c as u32) * (a as u32) <= 65025) by (nonlinear_arith)
        requires
            c <= 255,
            a <= 255,
    ;
    let p: u32 = (c as u32) * (a as u32);
    assert(p / 255 <= c && p / 255 <= a) by (nonlinear_arith)
        requires
            p == (c as u32) * (a as u32),
            c <= 255,
            a <= 255,
    ;
    (p / 255) as u8
}

impl Color {
    /// The four channels
    pub fn raw(&self) -> (r: RawColor)
        ensures
            r == self@,
    {
        self.raw
    }

    /// Color with the given channels
    pub fn rgba(r: u8, g: u8, b: u8, a: u8) -> (c: Color)
        ensures
            c@ == (RawColor { r, g, b, a }),
    {
        Color { raw: RawColor { r, g, b, a } }
    }

    /// Opaque color with the given channels
    pub fn rgb(r: u8, g: u8, b: u8) -> (c: Color)
        ensures
            c@ == (RawColor { r, g, b, a: 255 }),
    {
        Self::rgba(r, g, b, 255)
    }

    /// Color with the red, green and blue channels premultiplied by alpha: each becomes
    /// `channel * a / 255`, rounded down
    pub fn from_non_premultiplied(r: u8, g: u8, b: u8, a: u8) -> (c: Color)
        ensures
            c@ == (RawColor {
                r: premultiplied(r, a),
                g: premultiplied(g, a),
                b: premultiplied(b, a),
                a,
            }),
    {
        Self::rgba(premultiply(r, a), premultiply(g, a), premultiply(b, a), a)
    }

    /// Fully transparent black
    pub fn transparent() -> (c: Color)
        ensures
            c@ == (RawColor { r: 0, g: 0, b: 0, a: 0 }),
    {
        Self::rgba(0, 0, 0, 0)
    }

    /// Opaque white
    pub fn white() -> (c: Color)
        ensures
            c@ == (RawColor { r: 255, g: 255, b: 255, a: 255 }),
    {
        Self::rgb(255, 255, 255)
    }

    /// Opaque cornflower blue
    pub fn cornflower_blue() -> (c: Color)
        ensures
            c@ == (RawColor { r: 100, g: 149, b: 237, a: 255 }),
    {
        Self::rgb(100, 149, 237)
    }
}

} // verus!
