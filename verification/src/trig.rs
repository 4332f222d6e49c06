//! Trigonometry on the fixed-point scalar, with angles in degrees.
//!
//! The library defines its own sine and cosine: the angle is folded into the
//! first quadrant by the usual symmetries, brought to radians, and fed to a
//! truncated Taylor polynomial (three correction terms, on arguments at or
//! below a quarter turn's half, where the series is sharp).  The contracts
//! state exactly the value computed; the doc comments say which function of
//! analysis each approximates.

use crate::fixed::{fx_div, fx_neg, muldiv, sat64, tdiv, Fx, FX_SCALE};
use vstd::prelude::*;

verus! {

/// One turn, a half turn, a quarter turn and an eighth of a turn, in raw
/// degree units.
pub const DEG_360_RAW: i64 = 23592960;

pub const DEG_270_RAW: i64 = 17694720;

pub const DEG_180_RAW: i64 = 11796480;

pub const DEG_90_RAW: i64 = 5898240;

pub const DEG_45_RAW: i64 = 2949120;

/// The circle constant at the fixed scale.
pub const PI_RAW: i64 = 205887;

/// Degrees to radians: `d * pi / 180`, at full intermediate precision.
pub open spec fn spec_deg_to_rad(d: int) -> int {
    sat64(tdiv(d * (PI_RAW as int), (DEG_180_RAW as int)))
}

/// The sine polynomial `r - r^3/6 + r^5/120 - r^7/5040` in the truncating
/// fixed arithmetic.
pub open spec fn spec_sin_poly(r: int) -> int {
    let r2 = crate::fixed::fx_mul(r, r);
    let r3 = crate::fixed::fx_mul(r2, r);
    let r5 = crate::fixed::fx_mul(r3, r2);
    let r7 = crate::fixed::fx_mul(r5, r2);
    crate::fixed::fx_sub(
        crate::fixed::fx_add(crate::fixed::fx_sub(r, tdiv(r3, 6)), tdiv(r5, 120)),
        tdiv(r7, 5040),
    )
}

/// The cosine polynomial `1 - r^2/2 + r^4/24 - r^6/720` in the truncating
/// fixed arithmetic.
pub open spec fn spec_cos_poly(r: int) -> int {
    let r2 = crate::fixed::fx_mul(r, r);
    let r4 = crate::fixed::fx_mul(r2, r2);
    let r6 = crate::fixed::fx_mul(r4, r2);
    crate::fixed::fx_sub(
        crate::fixed::fx_add(crate::fixed::fx_sub(FX_SCALE as int, tdiv(r2, 2)), tdiv(r4, 24)),
        tdiv(r6, 720),
    )
}

/// Sine of a first-quadrant angle: past an eighth of a turn the co-function
/// of the complement keeps the polynomial argument small.
pub open spec fn spec_sin_acute(a: int) -> int {
    if a <= DEG_45_RAW as int {
        spec_sin_poly(spec_deg_to_rad(a))
    } else {
        spec_cos_poly(spec_deg_to_rad(DEG_90_RAW as int - a))
    }
}

/// Cosine of a first-quadrant angle.
pub open spec fn spec_cos_acute(a: int) -> int {
    if a <= DEG_45_RAW as int {
        spec_cos_poly(spec_deg_to_rad(a))
    } else {
        spec_sin_poly(spec_deg_to_rad(DEG_90_RAW as int - a))
    }
}

/// Sine of any angle in degrees, by reduction into one turn and the
/// quadrant symmetries.
pub open spec fn spec_sin_deg(d: int) -> int {
    let m = d % (DEG_360_RAW as int);
    if m < DEG_90_RAW as int {
        spec_sin_acute(m)
    } else if m < DEG_180_RAW as int {
        spec_sin_acute(DEG_180_RAW as int - m)
    } else if m < DEG_270_RAW as int {
        sat64(-spec_sin_acute(m - DEG_180_RAW as int))
    } else {
        sat64(-spec_sin_acute(DEG_360_RAW as int - m))
    }
}

/// Cosine of any angle in degrees.
pub open spec fn spec_cos_deg(d: int) -> int {
    let m = d % (DEG_360_RAW as int);
    if m < DEG_90_RAW as int {
        spec_cos_acute(m)
    } else if m < DEG_180_RAW as int {
        sat64(-spec_cos_acute(DEG_180_RAW as int - m))
    } else if m < DEG_270_RAW as int {
        sat64(-spec_cos_acute(m - DEG_180_RAW as int))
    } else {
        spec_cos_acute(DEG_360_RAW as int - m)
    }
}

/// Tangent of any angle in degrees: sine over cosine.
pub open spec fn spec_tan_deg(d: int) -> int {
    fx_div(spec_sin_deg(d), spec_cos_deg(d))
}

fn deg_to_rad(a: i64) -> (r: Fx)
    ensures
        r.as_int() == spec_deg_to_rad(a as int),
{
    Fx { raw: muldiv(a, PI_RAW, DEG_180_RAW) }
}

fn sin_poly(r: Fx) -> (out: Fx)
    ensures
        out.as_int() == spec_sin_poly(r.as_int()),
{
    let r2 = r.mul(r);
    let r3 = r2.mul(r);
    let r5 = r3.mul(r2);
    let r7 = r5.mul(r2);
    r.sub(r3.div_int(6)).add(r5.div_int(120)).sub(r7.div_int(5040))
}

fn cos_poly(r: Fx) -> (out: Fx)
    ensures
        out.as_int() == spec_cos_poly(r.as_int()),
{
    let r2 = r.mul(r);
    let r4 = r2.mul(r2);
    let r6 = r4.mul(r2);
    Fx { raw: FX_SCALE }.sub(r2.div_int(2)).add(r4.div_int(24)).sub(r6.div_int(720))
}

fn sin_acute(a: i64) -> (r: Fx)
    requires
        0 <= a <= DEG_90_RAW,
    ensures
        r.as_int() == spec_sin_acute(a as int),
{
    if a <= DEG_45_RAW {
        sin_poly(deg_to_rad(a))
    } else {
        cos_poly(deg_to_rad(DEG_90_RAW - a))
    }
}

fn cos_acute(a: i64) -> (r: Fx)
    requires
        0 <= a <= DEG_90_RAW,
    ensures
        r.as_int() == spec_cos_acute(a as int),
{
    if a <= DEG_45_RAW {
        cos_poly(deg_to_rad(a))
    } else {
        sin_poly(deg_to_rad(DEG_90_RAW - a))
    }
}

/// Sine of an angle in degrees.
pub fn sin_deg(d: Fx) -> (r: Fx)
    ensures
        r.as_int() == spec_sin_deg(d.as_int()),
{
    proof {
        vstd::arithmetic::div_mod::lemma_mod_division_less_than_divisor(
            d.raw as int,
            DEG_360_RAW as int,
        );
    }
    let m = d.raw.checked_rem_euclid(DEG_360_RAW).unwrap();
    if m < DEG_90_RAW {
        sin_acute(m)
    } else if m < DEG_180_RAW {
        sin_acute(DEG_180_RAW - m)
    } else if m < DEG_270_RAW {
        sin_acute(m - DEG_180_RAW).neg()
    } else {
        sin_acute(DEG_360_RAW - m).neg()
    }
}

/// Cosine of an angle in degrees.
pub fn cos_deg(d: Fx) -> (r: Fx)
    ensures
        r.as_int() == spec_cos_deg(d.as_int()),
{
    proof {
        vstd::arithmetic::div_mod::lemma_mod_division_less_than_divisor(
            d.raw as int,
            DEG_360_RAW as int,
        );
    }
    let m = d.raw.checked_rem_euclid(DEG_360_RAW).unwrap();
    if m < DEG_90_RAW {
        cos_acute(m)
    } else if m < DEG_180_RAW {
        cos_acute(DEG_180_RAW - m).neg()
    } else if m < DEG_270_RAW {
        cos_acute(m - DEG_180_RAW).neg()
    } else {
        cos_acute(DEG_360_RAW - m)
    }
}

/// Tangent of an angle in degrees.
pub fn tan_deg(d: Fx) -> (r: Fx)
    ensures
        r.as_int() == spec_tan_deg(d.as_int()),
{
    let s = sin_deg(d);
    let c = cos_deg(d);
    s.div(c)
}

} // verus!
