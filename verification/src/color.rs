//! RGBA colors with 8-bit channels.

use vstd::prelude::*;

verus! {

#[derive(Clone, Copy, Debug, PartialEq, Eq, Structural)]
pub struct Color {
    pub r: u8,
    pub g: u8,
    pub b: u8,
    pub a: u8,
}

/// One channel of an alpha blend: `c1` weighted by the source alpha `a1`,
/// plus `c2` weighted by its own alpha `a2` and the remaining coverage
/// `255 - a1`, all over the `255 * 255` scale of the two alpha factors.
pub open spec fn blend_channel(c1: int, a1: int, c2: int, a2: int) -> int {
    (255 * (c1 * a1) + (c2 * a2) * (255 - a1)) / 65025
}

/// A blended channel stays inside the 8-bit range.
pub proof fn lemma_blend_channel_bounds(c1: int, a1: int, c2: int, a2: int)
    requires
        0 <= c1 <= 255,
        0 <= a1 <= 255,
        0 <= c2 <= 255,
        0 <= a2 <= 255,
    ensures
        0 <= blend_channel(c1, a1, c2, a2) <= 255,
{
    let num = 255 * (c1 * a1) + (c2 * a2) * (255 - a1);
    assert(0 <= c1 * a1 && c1 * a1 <= 255 * a1) by (nonlinear_arith)
        requires
            0 <= c1 <= 255,
            0 <= a1 <= 255,
    ;
    assert(0 <= c2 * a2 && c2 * a2 <= 65025) by (nonlinear_arith)
        requires
            0 <= c2 <= 255,
            0 <= a2 <= 255,
    ;
    assert(0 <= (c2 * a2) * (255 - a1) && (c2 * a2) * (255 - a1) <= 65025 * (255 - a1))
        by (nonlinear_arith)
        requires
            0 <= c2 * a2 <= 65025,
            0 <= a1 <= 255,
    ;
    assert(0 <= num <= 255 * 65025);
    vstd::arithmetic::div_mod::lemma_div_pos_is_pos(num, 65025);
    vstd::arithmetic::div_mod::lemma_div_is_ordered(num, (255 * 65025) as int, 65025);
    assert((255 * 65025) as int / 65025 == 255) by (nonlinear_arith);
}

impl Color {
    pub fn new(r: u8, g: u8, b: u8, a: u8) -> (c: Color)
        ensures
            c == (Color { r, g, b, a }),
    {
        Color { r, g, b, a }
    }

    /// Blend `self` over `other`: each channel weighted by this color's alpha,
    /// the other's by its own alpha and the remaining coverage.
    pub fn alpha_blended(&self, other: Color) -> (c: Color)
        ensures
            c.r as int == blend_channel(self.r as int, self.a as int, other.r as int, other.a as int),
            c.g as int == blend_channel(self.g as int, self.a as int, other.g as int, other.a as int),
            c.b as int == blend_channel(self.b as int, self.a as int, other.b as int, other.a as int),
            c.a as int == blend_channel(self.a as int, self.a as int, other.a as int, other.a as int),
    {
        let r = blend_channel_exec(self.r, self.a, other.r, other.a);
        let g = blend_channel_exec(self.g, self.a, other.g, other.a);
        let b = blend_channel_exec(self.b, self.a, other.b, other.a);
        let a = blend_channel_exec(self.a, self.a, other.a, other.a);
        Color { r, g, b, a }
    }
}

fn blend_channel_exec(c1: u8, a1: u8, c2: u8, a2: u8) -> (out: u8)
    ensures
        out as int == blend_channel(c1 as int, a1 as int, c2 as int, a2 as int),
{
    proof {
        lemma_blend_channel_bounds(c1 as int, a1 as int, c2 as int, a2 as int);
        assert((c1 as int) * (a1 as int) <= 65025 && (c2 as int) * (a2 as int) <= 65025)
            by (nonlinear_arith)
            requires
                0 <= c1 as int <= 255,
                0 <= a1 as int <= 255,
                0 <= c2 as int <= 255,
                0 <= a2 as int <= 255,
        ;
        assert(((c2 as int) * (a2 as int)) * (255 - a1 as int) <= 65025 * 255
            && ((c2 as int) * (a2 as int)) * (255 - a1 as int) >= 0) by (nonlinear_arith)
            requires
                0 <= (c2 as int) * (a2 as int) <= 65025,
                0 <= a1 as int <= 255,
        ;
    }
    let t1: u64 = (c1 as u64) * (a1 as u64);
    let t2: u64 = ((c2 as u64) * (a2 as u64)) * (255 - (a1 as u64));
    let num: u64 = 255 * t1 + t2;
    (num / 65025) as u8
}

} // verus!
