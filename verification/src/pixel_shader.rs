//! The per-pixel shader interface, the composing shader, the hue-cycling
//! shader and the depth-fog shader.
//!
//! A shader consumes a mutable [`PixelPlacement`] plus the source triangle
//! and rewrites the placement in place; its whole effect is captured by the
//! spec-level transfer function `spec_process`.

use crate::color::Color;
use crate::dither_shader::DitherShader;
use crate::dummy_passthru_shader::DummyPassthruShader;
use crate::even_line_missing_shader::EvenLineMissingShader;
use crate::everything_is_red_shader::EverythingIsRedShader;
use crate::fixed::{
    fx, fx_add, fx_div, fx_mul, fx_sub, lemma_i64_product_fits, lemma_tdiv_magnitude, sat64, tdiv,
    trem, Fx, FX_SCALE,
};
use crate::pixel_placement::PixelPlacement;
use crate::triangle::{clamp_u8, Triangle};
use vstd::prelude::*;

verus! {

/// A per-pixel transform.  `spec_process` is the mathematical account of the
/// transform; `process` must realize exactly it.
pub trait PixelShader: Sized {
    spec fn spec_process(self, pp: PixelPlacement, triangle: Triangle) -> PixelPlacement;

    fn process(&self, pp: &mut PixelPlacement, triangle: &Triangle)
        ensures
            *final(pp) == self.spec_process(*old(pp), *triangle),
    ;
}

/// One concrete leaf shader, for holding shaders of different kinds in one
/// chain.
#[derive(Clone, Copy, Debug, PartialEq, Eq, Structural)]
pub enum ShaderKind {
    Passthru(DummyPassthruShader),
    Red(EverythingIsRedShader),
    Dither(DitherShader),
    EvenLineMissing(EvenLineMissingShader),
    Rainbow(TexturedRainbowShader),
    DepthFog(DepthFogShader),
}

impl PixelShader for ShaderKind {
    open spec fn spec_process(self, pp: PixelPlacement, triangle: Triangle) -> PixelPlacement {
        match self {
            ShaderKind::Passthru(s) => s.spec_process(pp, triangle),
            ShaderKind::Red(s) => s.spec_process(pp, triangle),
            ShaderKind::Dither(s) => s.spec_process(pp, triangle),
            ShaderKind::EvenLineMissing(s) => s.spec_process(pp, triangle),
            ShaderKind::Rainbow(s) => s.spec_process(pp, triangle),
            ShaderKind::DepthFog(s) => s.spec_process(pp, triangle),
        }
    }

    fn process(&self, pp: &mut PixelPlacement, triangle: &Triangle) {
        match self {
            ShaderKind::Passthru(s) => s.process(pp, triangle),
            ShaderKind::Red(s) => s.process(pp, triangle),
            ShaderKind::Dither(s) => s.process(pp, triangle),
            ShaderKind::EvenLineMissing(s) => s.process(pp, triangle),
            ShaderKind::Rainbow(s) => s.process(pp, triangle),
            ShaderKind::DepthFog(s) => s.process(pp, triangle),
        }
    }
}

/// The placement after every shader of the sequence has run, first to last,
/// each seeing the previous one's output.
pub open spec fn chain_process(
    shaders: Seq<ShaderKind>,
    pp: PixelPlacement,
    triangle: Triangle,
) -> PixelPlacement
    decreases shaders.len(),
{
    if shaders.len() == 0 {
        pp
    } else {
        chain_process(shaders.drop_first(), shaders[0].spec_process(pp, triangle), triangle)
    }
}

/// An ordered chain of shaders applied in sequence.  No shader short-circuits
/// the rest: every member runs, whatever an earlier one did to the alpha.
pub struct SuperShader {
    pub child_shaders: Vec<ShaderKind>,
}

impl SuperShader {
    pub fn new(child_shaders: Vec<ShaderKind>) -> (s: SuperShader)
        ensures
            s.child_shaders@ == child_shaders@,
    {
        SuperShader { child_shaders }
    }
}

impl PixelShader for SuperShader {
    open spec fn spec_process(self, pp: PixelPlacement, triangle: Triangle) -> PixelPlacement {
        chain_process(self.child_shaders@, pp, triangle)
    }

    fn process(&self, pp: &mut PixelPlacement, triangle: &Triangle) {
        let ghost pp0 = *pp;
        let ghost all = self.child_shaders@;
        let n = self.child_shaders.len();
        proof {
            assert(all.skip(0) =~= all);
        }
        let mut i: usize = 0;
        while i < n
            invariant
                i <= n,
                n == all.len(),
                all == self.child_shaders@,
                chain_process(all, pp0, *triangle) == chain_process(all.skip(i as int), *pp, *triangle),
            decreases n - i,
        {
            proof {
                assert(all.skip(i as int).len() > 0);
                assert(all.skip(i as int)[0] == all[i as int]);
                assert(all.skip(i as int).drop_first() =~= all.skip(i as int + 1));
            }
            self.child_shaders[i].process(pp, triangle);
            i += 1;
        }
        proof {
            assert(all.skip(n as int).len() == 0);
        }
    }
}

/// The raw value of a unit-scale channel brought to the 8-bit range.
pub open spec fn unit_to_channel(v: int) -> int {
    clamp_u8(tdiv(v * 255, FX_SCALE as int))
}

fn unit_to_channel_exec(v: Fx) -> (out: u8)
    ensures
        out as int == unit_to_channel(v.raw as int),
{
    proof {
        lemma_i64_product_fits(v.raw as int, 255);
    }
    let p: i128 = (v.raw as i128) * 255;
    proof {
        lemma_tdiv_magnitude(p as int, FX_SCALE as int);
    }
    let q: i128 = p.checked_div(FX_SCALE as i128).unwrap();
    if q < 0 {
        0
    } else if q > 255 {
        255
    } else {
        q as u8
    }
}

/// A hue-cycling shader: the hue walks with the barycentric texture
/// coordinates and an externally advanced time, through a six-sector
/// hue-to-color wheel at full saturation and value.  The alpha is preserved.
#[derive(Clone, Copy, Debug, PartialEq, Eq, Structural)]
pub struct TexturedRainbowShader {
    pub time: Fx,
    pub speed: Fx,
}

impl TexturedRainbowShader {
    pub fn new(speed: Fx) -> (s: TexturedRainbowShader)
        ensures
            s.time.raw == 0,
            s.speed == speed,
    {
        TexturedRainbowShader { time: Fx { raw: 0 }, speed }
    }

    /// The hue, in units of one turn: `(u + v) * 2 + time * speed`, wrapped
    /// into `(-1, 1)` by a truncating remainder.
    pub open spec fn spec_hue(self, pp: PixelPlacement, triangle: Triangle) -> int {
        let uv = triangle.spec_barycentric(
            fx(Fx::spec_from_int(pp.x as i64 as int)),
            fx(Fx::spec_from_int(pp.y as i64 as int)),
        );
        trem(
            fx_add(
                fx_mul(fx_add(uv.0.raw as int, uv.1.raw as int), 2 * FX_SCALE as int),
                fx_mul(self.time.raw as int, self.speed.raw as int),
            ),
            FX_SCALE as int,
        )
    }

    /// The shader's color for a given hue: six sectors around the wheel; a
    /// negative sector (from a negative hue) yields white.
    pub open spec fn spec_wheel(hue: int, a: u8) -> Color {
        let h = fx_mul(hue, 6 * FX_SCALE as int);
        let i = h / FX_SCALE as int;
        let f = fx_sub(h, sat64(i * FX_SCALE as int));
        let q = fx_sub(FX_SCALE as int, f);
        let s = trem(i, 6);
        let one = FX_SCALE as int;
        if s == 0 {
            Color {
                r: unit_to_channel(one) as u8,
                g: unit_to_channel(f) as u8,
                b: unit_to_channel(0) as u8,
                a,
            }
        } else if s == 1 {
            Color {
                r: unit_to_channel(q) as u8,
                g: unit_to_channel(one) as u8,
                b: unit_to_channel(0) as u8,
                a,
            }
        } else if s == 2 {
            Color {
                r: unit_to_channel(0) as u8,
                g: unit_to_channel(one) as u8,
                b: unit_to_channel(f) as u8,
                a,
            }
        } else if s == 3 {
            Color {
                r: unit_to_channel(0) as u8,
                g: unit_to_channel(q) as u8,
                b: unit_to_channel(one) as u8,
                a,
            }
        } else if s == 4 {
            Color {
                r: unit_to_channel(f) as u8,
                g: unit_to_channel(0) as u8,
                b: unit_to_channel(one) as u8,
                a,
            }
        } else if s == 5 {
            Color {
                r: unit_to_channel(one) as u8,
                g: unit_to_channel(0) as u8,
                b: unit_to_channel(q) as u8,
                a,
            }
        } else {
            Color {
                r: unit_to_channel(one) as u8,
                g: unit_to_channel(one) as u8,
                b: unit_to_channel(one) as u8,
                a,
            }
        }
    }
}

impl PixelShader for TexturedRainbowShader {
    open spec fn spec_process(self, pp: PixelPlacement, triangle: Triangle) -> PixelPlacement {
        if pp.color.a == 0 {
            pp
        } else {
            PixelPlacement {
                color: TexturedRainbowShader::spec_wheel(
                    self.spec_hue(pp, triangle),
                    pp.color.a,
                ),
                ..pp
            }
        }
    }

    fn process(&self, pp: &mut PixelPlacement, triangle: &Triangle) {
        if pp.color.a == 0 {
            return ;
        }
        let px = Fx::from_int(pp.x as i64);
        let py = Fx::from_int(pp.y as i64);
        let (u, v, _xx) = triangle.barycentric_coords(px, py);
        let two = Fx { raw: 2 * FX_SCALE };
        let one = Fx { raw: FX_SCALE };
        let hue = u.add(v).mul(two).add(self.time.mul(self.speed)).rem(one);
        let six = Fx { raw: 6 * FX_SCALE };
        let h = hue.mul(six);
        let i = h.floor_units();
        let f = h.sub(Fx::from_int(i));
        let q = one.sub(f);
        proof {
            crate::fixed::lemma_trem_magnitude(i as int, 6);
        }
        let s = i.checked_rem(6).unwrap();
        let a = pp.color.a;
        let color = if s == 0 {
            Color {
                r: unit_to_channel_exec(one),
                g: unit_to_channel_exec(f),
                b: unit_to_channel_exec(Fx { raw: 0 }),
                a,
            }
        } else if s == 1 {
            Color {
                r: unit_to_channel_exec(q),
                g: unit_to_channel_exec(one),
                b: unit_to_channel_exec(Fx { raw: 0 }),
                a,
            }
        } else if s == 2 {
            Color {
                r: unit_to_channel_exec(Fx { raw: 0 }),
                g: unit_to_channel_exec(one),
                b: unit_to_channel_exec(f),
                a,
            }
        } else if s == 3 {
            Color {
                r: unit_to_channel_exec(Fx { raw: 0 }),
                g: unit_to_channel_exec(q),
                b: unit_to_channel_exec(one),
                a,
            }
        } else if s == 4 {
            Color {
                r: unit_to_channel_exec(f),
                g: unit_to_channel_exec(Fx { raw: 0 }),
                b: unit_to_channel_exec(one),
                a,
            }
        } else if s == 5 {
            Color {
                r: unit_to_channel_exec(one),
                g: unit_to_channel_exec(Fx { raw: 0 }),
                b: unit_to_channel_exec(q),
                a,
            }
        } else {
            Color {
                r: unit_to_channel_exec(one),
                g: unit_to_channel_exec(one),
                b: unit_to_channel_exec(one),
                a,
            }
        };
        pp.color = color;
    }
}

/// One channel pulled toward the fog by the factor `f` (raw unit scale).
pub open spec fn fog_channel(f: int, c: int, fc: int) -> int {
    clamp_u8(tdiv((FX_SCALE as int - f) * c + f * fc, FX_SCALE as int))
}

/// Depth fog: past `fog_start` every channel, alpha included, is pulled
/// linearly toward the fog color, reaching it exactly at `fog_end`.
#[derive(Clone, Copy, Debug, PartialEq, Eq, Structural)]
pub struct DepthFogShader {
    pub fog_color: Color,
    pub fog_start: Fx,
    pub fog_end: Fx,
}

impl DepthFogShader {
    pub fn new(fog_color: Color, fog_start: Fx, fog_end: Fx) -> (s: DepthFogShader)
        ensures
            s == (DepthFogShader { fog_color, fog_start, fog_end }),
    {
        DepthFogShader { fog_color, fog_start, fog_end }
    }

    /// The fog factor: the depth's position between start and end, clamped
    /// into the unit range.
    pub open spec fn spec_factor(self, depth: Fx) -> int {
        let f = fx_div(
            fx_sub(depth.raw as int, self.fog_start.raw as int),
            fx_sub(self.fog_end.raw as int, self.fog_start.raw as int),
        );
        if f < 0 {
            0
        } else if f > FX_SCALE as int {
            FX_SCALE as int
        } else {
            f
        }
    }
}

impl PixelShader for DepthFogShader {
    open spec fn spec_process(self, pp: PixelPlacement, triangle: Triangle) -> PixelPlacement {
        if pp.color.a == 0 {
            pp
        } else {
            let f = self.spec_factor(pp.depth);
            PixelPlacement {
                color: Color {
                    r: fog_channel(f, pp.color.r as int, self.fog_color.r as int) as u8,
                    g: fog_channel(f, pp.color.g as int, self.fog_color.g as int) as u8,
                    b: fog_channel(f, pp.color.b as int, self.fog_color.b as int) as u8,
                    a: fog_channel(f, pp.color.a as int, self.fog_color.a as int) as u8,
                },
                ..pp
            }
        }
    }

    fn process(&self, pp: &mut PixelPlacement, triangle: &Triangle) {
        if pp.color.a == 0 {
            return ;
        }
        let num = pp.depth.sub(self.fog_start);
        let den = self.fog_end.sub(self.fog_start);
        let raw_f = num.div(den);
        let f: i64 = if raw_f.raw < 0 {
            0
        } else if raw_f.raw > FX_SCALE {
            FX_SCALE
        } else {
            raw_f.raw
        };
        let r = fog_channel_exec(f, pp.color.r, self.fog_color.r);
        let g = fog_channel_exec(f, pp.color.g, self.fog_color.g);
        let b = fog_channel_exec(f, pp.color.b, self.fog_color.b);
        let a = fog_channel_exec(f, pp.color.a, self.fog_color.a);
        pp.color = Color { r, g, b, a };
    }
}

/// A chain of two shaders is their composition: the placement it yields is
/// exactly what running the first shader and then the second by hand yields.
pub proof fn lemma_chain_of_two(
    s: SuperShader,
    a: ShaderKind,
    b: ShaderKind,
    pp: PixelPlacement,
    triangle: Triangle,
)
    requires
        s.child_shaders@ == seq![a, b],
    ensures
        s.spec_process(pp, triangle) == b.spec_process(a.spec_process(pp, triangle), triangle),
{
    let two = seq![a, b];
    assert(two[0] == a);
    assert(two.drop_first() =~= seq![b]);
    assert(seq![b][0] == b);
    assert(seq![b].drop_first() =~= Seq::<ShaderKind>::empty());
    assert(chain_process(two, pp, triangle) == chain_process(
        seq![b],
        a.spec_process(pp, triangle),
        triangle,
    ));
    let mid = a.spec_process(pp, triangle);
    assert(chain_process(seq![b], mid, triangle) == chain_process(
        Seq::<ShaderKind>::empty(),
        b.spec_process(mid, triangle),
        triangle,
    ));
    assert(chain_process(
        Seq::<ShaderKind>::empty(),
        b.spec_process(mid, triangle),
        triangle,
    ) == b.spec_process(mid, triangle));
}

/// At a depth exactly at the fog's start the fog pass changes nothing: the
/// factor is zero and every channel, alpha included, survives whole.
pub proof fn lemma_fog_at_start(f: DepthFogShader, pp: PixelPlacement, triangle: Triangle)
    requires
        pp.depth == f.fog_start,
        f.fog_start.raw >= 0,
        f.fog_end.raw > f.fog_start.raw,
    ensures
        f.spec_process(pp, triangle) == pp,
{
    if pp.color.a != 0 {
        assert(fx_sub(pp.depth.raw as int, f.fog_start.raw as int) == 0);
        assert(f.spec_factor(pp.depth) == 0) by {
            assert(fx_div(0, fx_sub(f.fog_end.raw as int, f.fog_start.raw as int)) == 0);
        }
        lemma_fog_channel_identity(pp.color.r as int, f.fog_color.r as int);
        lemma_fog_channel_identity(pp.color.g as int, f.fog_color.g as int);
        lemma_fog_channel_identity(pp.color.b as int, f.fog_color.b as int);
        lemma_fog_channel_identity(pp.color.a as int, f.fog_color.a as int);
    }
}

/// At or past the fog's end the fog pass paints the fog color exactly,
/// alpha included, for any pixel still carrying alpha.
pub proof fn lemma_fog_at_end(f: DepthFogShader, pp: PixelPlacement, triangle: Triangle)
    requires
        pp.depth.raw >= f.fog_end.raw,
        f.fog_start.raw >= 0,
        f.fog_end.raw > f.fog_start.raw,
        pp.color.a > 0,
    ensures
        f.spec_process(pp, triangle).color == f.fog_color,
        f.spec_process(pp, triangle).depth == pp.depth,
{
    let num = fx_sub(pp.depth.raw as int, f.fog_start.raw as int);
    let den = fx_sub(f.fog_end.raw as int, f.fog_start.raw as int);
    assert(num >= den > 0);
    assert(f.spec_factor(pp.depth) == FX_SCALE as int) by {
        vstd::arithmetic::div_mod::lemma_div_is_ordered(
            den * 65536,
            num * 65536,
            den,
        );
        vstd::arithmetic::div_mod::lemma_div_multiples_vanish(65536, den);
        assert(den * 65536 == 65536 * den) by (nonlinear_arith);
        assert(num * 65536 >= den * 65536) by (nonlinear_arith)
            requires
                num >= den,
        ;
        assert((num * 65536) / den >= 65536);
        assert(tdiv(num * 65536, den) == (num * 65536) / den);
        assert(fx_div(num, den) >= FX_SCALE as int);
    }
    lemma_fog_channel_full(pp.color.r as int, f.fog_color.r as int);
    lemma_fog_channel_full(pp.color.g as int, f.fog_color.g as int);
    lemma_fog_channel_full(pp.color.b as int, f.fog_color.b as int);
    lemma_fog_channel_full(pp.color.a as int, f.fog_color.a as int);
}

/// A fog factor of zero leaves a channel unchanged.
proof fn lemma_fog_channel_identity(c: int, fc: int)
    requires
        0 <= c <= 255,
    ensures
        fog_channel(0, c, fc) == c,
{
    assert((FX_SCALE as int - 0) * c + 0 * fc == 65536 * c) by (nonlinear_arith);
    vstd::arithmetic::div_mod::lemma_div_multiples_vanish(c, 65536);
    assert(tdiv(65536 * c, 65536) == c);
}

/// A full fog factor paints a channel with the fog color.
proof fn lemma_fog_channel_full(c: int, fc: int)
    requires
        0 <= c <= 255,
        0 <= fc <= 255,
    ensures
        fog_channel(FX_SCALE as int, c, fc) == fc,
{
    assert((FX_SCALE as int - FX_SCALE as int) * c + (FX_SCALE as int) * fc == 65536 * fc)
        by (nonlinear_arith);
    vstd::arithmetic::div_mod::lemma_div_multiples_vanish(fc, 65536);
    assert(tdiv(65536 * fc, 65536) == fc);
}

fn fog_channel_exec(f: i64, c: u8, fc: u8) -> (out: u8)
    requires
        0 <= f <= FX_SCALE,
    ensures
        out as int == fog_channel(f as int, c as int, fc as int),
{
    proof {
        assert(0 <= (FX_SCALE as int - f as int) * (c as int) <= 65536 * 255
            && 0 <= (f as int) * (fc as int) <= 65536 * 255) by (nonlinear_arith)
            requires
                0 <= f as int <= 65536,
                0 <= c as int <= 255,
                0 <= fc as int <= 255,
        ;
    }
    let num: i128 = ((FX_SCALE - f) as i128) * (c as i128) + (f as i128) * (fc as i128);
    proof {
        lemma_tdiv_magnitude(num as int, FX_SCALE as int);
    }
    let q: i128 = num.checked_div(FX_SCALE as i128).unwrap();
    if q < 0 {
        0
    } else if q > 255 {
        255
    } else {
        q as u8
    }
}

} // verus!
