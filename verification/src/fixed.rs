//! Fixed-point scalar arithmetic: the numeric ground the whole pipeline stands on.
//!
//! A [`Fx`] holds a signed 16.16 value: `raw` counts units of `1/65536`.
//! Every operation is total: results outside the representable range saturate
//! to the nearest bound, and division by zero saturates by the sign of the
//! dividend (standing in for an infinity).  Each operation's contract states
//! the exact result via the spec functions below.

use vstd::prelude::*;

verus! {

/// Number of raw units per 1.0.
pub const FX_SCALE: i64 = 65536;

/// Largest representable raw value.
pub open spec fn fx_max() -> int {
    i64::MAX as int
}

/// Smallest representable raw value.
pub open spec fn fx_min() -> int {
    i64::MIN as int
}

/// Clamp a mathematical integer into the representable raw range.
pub open spec fn sat64(x: int) -> int {
    if x > fx_max() {
        fx_max()
    } else if x < fx_min() {
        fx_min()
    } else {
        x
    }
}

/// Integer division truncating toward zero (the rounding of Rust's `/`),
/// written over Verus's Euclidean `/` on magnitudes.
pub open spec fn tdiv(a: int, b: int) -> int
    recommends
        b != 0,
{
    if a == 0 {
        0
    } else if a > 0 && b > 0 {
        a / b
    } else if a < 0 && b < 0 {
        (a * -1) / (b * -1)
    } else if a < 0 {
        ((a * -1) / b) * -1
    } else {
        (a / (b * -1)) * -1
    }
}

/// Exact raw result of fixed-point addition.
pub open spec fn fx_add(a: int, b: int) -> int {
    sat64(a + b)
}

/// Exact raw result of fixed-point subtraction.
pub open spec fn fx_sub(a: int, b: int) -> int {
    sat64(a - b)
}

/// Exact raw result of fixed-point negation.
pub open spec fn fx_neg(a: int) -> int {
    sat64(-a)
}

/// Exact raw result of fixed-point multiplication: the product of two raw
/// values carries a double scale, so it is divided back down, truncating
/// toward zero.
pub open spec fn fx_mul(a: int, b: int) -> int {
    sat64(tdiv(a * b, FX_SCALE as int))
}

/// Exact raw result of fixed-point division.  A zero divisor saturates by the
/// sign of the dividend, standing in for the infinity a float would produce.
pub open spec fn fx_div(a: int, b: int) -> int {
    if b == 0 {
        if a == 0 {
            0
        } else if a > 0 {
            fx_max()
        } else {
            fx_min()
        }
    } else {
        sat64(tdiv(a * FX_SCALE as int, b))
    }
}

/// A fixed-point number: `raw / 65536` is the value represented.
#[derive(Clone, Copy, Debug, PartialEq, Eq, Structural)]
pub struct Fx {
    pub raw: i64,
}

/// Build a scalar from a raw value, for use inside specifications.
pub open spec fn fx(v: int) -> Fx {
    Fx { raw: v as i64 }
}

/// Clamp an `i128` into the `i64` range.
fn sat_to_i64(v: i128) -> (r: i64)
    ensures
        r as int == sat64(v as int),
{
    if v > i64::MAX as i128 {
        i64::MAX
    } else if v < i64::MIN as i128 {
        i64::MIN
    } else {
        v as i64
    }
}

impl Fx {
    /// The value this scalar stands for, in raw units of `1/65536`.
    pub open spec fn as_int(self) -> int {
        self.raw as int
    }

    /// Exact raw representation of a small integer.
    pub open spec fn spec_from_int(v: int) -> int {
        sat64(v * FX_SCALE as int)
    }

    pub fn from_raw(raw: i64) -> (r: Fx)
        ensures
            r.raw == raw,
    {
        Fx { raw }
    }

    pub fn from_int(v: i64) -> (r: Fx)
        ensures
            r.as_int() == Fx::spec_from_int(v as int),
    {
        proof {
            lemma_i64_product_fits(v as int, FX_SCALE as int);
        }
        let p: i128 = (v as i128) * (FX_SCALE as i128);
        Fx { raw: sat_to_i64(p) }
    }

    pub fn zero() -> (r: Fx)
        ensures
            r.raw == 0,
    {
        Fx { raw: 0 }
    }

    pub fn one() -> (r: Fx)
        ensures
            r.raw == FX_SCALE,
    {
        Fx { raw: FX_SCALE }
    }

    pub fn add(self, o: Fx) -> (r: Fx)
        ensures
            r.as_int() == fx_add(self.as_int(), o.as_int()),
    {
        let s: i128 = self.raw as i128 + o.raw as i128;
        Fx { raw: sat_to_i64(s) }
    }

    pub fn sub(self, o: Fx) -> (r: Fx)
        ensures
            r.as_int() == fx_sub(self.as_int(), o.as_int()),
    {
        let s: i128 = self.raw as i128 - o.raw as i128;
        Fx { raw: sat_to_i64(s) }
    }

    pub fn neg(self) -> (r: Fx)
        ensures
            r.as_int() == fx_neg(self.as_int()),
    {
        let s: i128 = -(self.raw as i128);
        Fx { raw: sat_to_i64(s) }
    }

    pub fn mul(self, o: Fx) -> (r: Fx)
        ensures
            r.as_int() == fx_mul(self.as_int(), o.as_int()),
    {
        let a: i128 = self.raw as i128;
        let b: i128 = o.raw as i128;
        proof {
            lemma_i64_product_fits(self.raw as int, o.raw as int);
        }
        let p: i128 = a * b;
        proof {
            lemma_tdiv_magnitude(p as int, FX_SCALE as int);
        }
        let q: i128 = p.checked_div(FX_SCALE as i128).unwrap();
        assert(q as int == tdiv(p as int, FX_SCALE as int));
        Fx { raw: sat_to_i64(q) }
    }

    /// Largest whole number of units at or below this value.
    pub fn floor_units(self) -> (r: i64)
        ensures
            r as int == fx_floor(self.as_int()),
    {
        proof {
            if self.raw >= 0 {
                vstd::arithmetic::div_mod::lemma_div_pos_is_pos(self.raw as int, FX_SCALE as int);
                vstd::arithmetic::div_mod::lemma_div_nonincreasing(
                    self.raw as int,
                    FX_SCALE as int,
                );
            } else {
                lemma_neg_div_bounds(self.raw as int, FX_SCALE as int);
            }
        }
        let q = self.raw.checked_div_euclid(FX_SCALE).unwrap();
        q
    }

    /// Smallest whole number of units at or above this value.
    pub fn ceil_units(self) -> (r: i64)
        ensures
            r as int == fx_ceil(self.as_int()),
    {
        let v: i128 = -(self.raw as i128);
        let q = v.checked_div_euclid(FX_SCALE as i128).unwrap();
        proof {
            if v >= 0 {
                vstd::arithmetic::div_mod::lemma_div_pos_is_pos(v as int, FX_SCALE as int);
                vstd::arithmetic::div_mod::lemma_div_nonincreasing(v as int, FX_SCALE as int);
            } else {
                lemma_neg_div_bounds(v as int, FX_SCALE as int);
            }
        }
        (-q) as i64
    }

    /// Remainder truncating toward zero, after Rust's `%`.
    pub fn rem(self, o: Fx) -> (r: Fx)
        requires
            o.raw > 0,
        ensures
            r.as_int() == trem(self.as_int(), o.as_int()),
    {
        proof {
            lemma_trem_magnitude(self.raw as int, o.raw as int);
        }
        let r = self.raw.checked_rem(o.raw).unwrap();
        Fx { raw: r }
    }

    /// Divide the raw value by a positive integer constant, truncating
    /// toward zero.
    pub fn div_int(self, k: i64) -> (r: Fx)
        requires
            k > 0,
        ensures
            r.as_int() == tdiv(self.as_int(), k as int),
    {
        proof {
            lemma_tdiv_magnitude(self.raw as int, k as int);
        }
        Fx { raw: self.raw.checked_div(k).unwrap() }
    }

    pub fn min(self, o: Fx) -> (r: Fx)
        ensures
            r.raw == if self.raw <= o.raw { self.raw } else { o.raw },
    {
        if self.raw <= o.raw { self } else { o }
    }

    pub fn max(self, o: Fx) -> (r: Fx)
        ensures
            r.raw == if self.raw >= o.raw { self.raw } else { o.raw },
    {
        if self.raw >= o.raw { self } else { o }
    }

    pub fn div(self, o: Fx) -> (r: Fx)
        ensures
            r.as_int() == fx_div(self.as_int(), o.as_int()),
    {
        if o.raw == 0 {
            if self.raw == 0 {
                Fx { raw: 0 }
            } else if self.raw > 0 {
                Fx { raw: i64::MAX }
            } else {
                Fx { raw: i64::MIN }
            }
        } else {
            let a: i128 = self.raw as i128;
            proof {
                lemma_i64_product_fits(self.raw as int, FX_SCALE as int);
            }
            let p: i128 = a * (FX_SCALE as i128);
            proof {
                lemma_tdiv_magnitude(p as int, o.raw as int);
            }
            let q: i128 = p.checked_div(o.raw as i128).unwrap();
            assert(q as int == tdiv(p as int, o.raw as int));
            Fx { raw: sat_to_i64(q) }
        }
    }
}

/// Remainder truncating toward zero (the rounding of Rust's `%`),
/// written over Verus's Euclidean `%` on magnitudes.
pub open spec fn trem(a: int, b: int) -> int
    recommends
        b != 0,
{
    if a == 0 {
        0
    } else if a > 0 && b > 0 {
        a % b
    } else if a < 0 && b < 0 {
        ((a * -1) % (b * -1)) * -1
    } else if a < 0 {
        ((a * -1) % b) * -1
    } else {
        a % (b * -1)
    }
}

/// The raw value floored to a whole number of units.
pub open spec fn fx_floor(a: int) -> int {
    a / (FX_SCALE as int)
}

/// The raw value raised to a whole number of units.
pub open spec fn fx_ceil(a: int) -> int {
    -((-a) / (FX_SCALE as int))
}

/// `r` is the integer square root of `n`.
pub open spec fn is_isqrt(n: int, r: int) -> bool {
    0 <= r && r * r <= n && n < (r + 1) * (r + 1)
}

/// The integer square root, as a function.  [`lemma_isqrt`] shows that it
/// meets [`is_isqrt`] for every non-negative argument.
pub open spec fn isqrt(n: int) -> int {
    choose|r: int| is_isqrt(n, r)
}

pub proof fn lemma_isqrt(n: int)
    requires
        n >= 0,
    ensures
        is_isqrt(n, isqrt(n)),
    decreases n,
{
    if n == 0 {
        assert(is_isqrt(0, 0));
    } else {
        lemma_isqrt(n - 1);
        let r0 = isqrt(n - 1);
        if (r0 + 1) * (r0 + 1) <= n {
            assert(n - 1 < (r0 + 1) * (r0 + 1));
            assert(n == (r0 + 1) * (r0 + 1));
            assert((r0 + 1) * (r0 + 1) < (r0 + 2) * (r0 + 2)) by (nonlinear_arith)
                requires
                    r0 >= 0,
            ;
            assert(is_isqrt(n, r0 + 1));
        } else {
            assert(is_isqrt(n, r0));
        }
    }
}

/// The integer square root is unique.
pub proof fn lemma_isqrt_unique(n: int, r: int)
    requires
        is_isqrt(n, r),
    ensures
        isqrt(n) == r,
{
    lemma_isqrt(n);
    let s = isqrt(n);
    assert(r == s) by (nonlinear_arith)
        requires
            0 <= r,
            r * r <= n,
            n < (r + 1) * (r + 1),
            0 <= s,
            s * s <= n,
            n < (s + 1) * (s + 1),
    ;
}

/// Integer square root by bisection.
pub fn isqrt_u128(n: u128) -> (r: u128)
    ensures
        is_isqrt(n as int, r as int),
{
    if n == 0 {
        return 0;
    }
    let mut lo: u128 = 0;
    let mut hi: u128 = 0x1_0000_0000_0000_0000;
    proof {
        assert((0x1_0000_0000_0000_0000 as int) * (0x1_0000_0000_0000_0000 as int) > u128::MAX
            as int) by (nonlinear_arith);
    }
    while hi - lo > 1
        invariant
            0 <= lo < hi <= 0x1_0000_0000_0000_0000,
            (lo as int) * (lo as int) <= n as int,
            (n as int) < (hi as int) * (hi as int),
        decreases hi - lo,
    {
        let mid: u128 = lo + (hi - lo) / 2;
        proof {
            assert((mid as int) * (mid as int) <= (0xffff_ffff_ffff_ffff as int)
                * (0xffff_ffff_ffff_ffff as int)) by (nonlinear_arith)
                requires
                    0 <= mid as int <= 0xffff_ffff_ffff_ffff,
            ;
        }
        if mid * mid <= n {
            lo = mid;
        } else {
            hi = mid;
        }
    }
    lo
}

/// The product of two `i64` values fits comfortably inside an `i128`.
pub proof fn lemma_i64_product_fits(a: int, b: int)
    requires
        i64::MIN <= a <= i64::MAX,
        i64::MIN <= b <= i64::MAX,
    ensures
        -0x4000_0000_0000_0000_0000_0000_0000_0000 <= a * b
            <= 0x4000_0000_0000_0000_0000_0000_0000_0000,
{
    assert(-0x4000_0000_0000_0000_0000_0000_0000_0000 <= a * b
        <= 0x4000_0000_0000_0000_0000_0000_0000_0000) by (nonlinear_arith)
        requires
            -0x8000_0000_0000_0000 <= a <= 0x7fff_ffff_ffff_ffff,
            -0x8000_0000_0000_0000 <= b <= 0x7fff_ffff_ffff_ffff,
    ;
}

/// The raw value of `a * b / c` computed at full intermediate precision,
/// truncating toward zero and saturating at the end.
pub fn muldiv(a: i64, b: i64, c: i64) -> (r: i64)
    requires
        c > 0,
    ensures
        r as int == sat64(tdiv((a as int) * (b as int), c as int)),
{
    proof {
        lemma_i64_product_fits(a as int, b as int);
    }
    let p: i128 = (a as i128) * (b as i128);
    proof {
        lemma_tdiv_magnitude(p as int, c as int);
    }
    let q: i128 = p.checked_div(c as i128).unwrap();
    sat_to_i64(q)
}

/// Bounds for Euclidean division of a negative dividend by a positive divisor.
pub proof fn lemma_neg_div_bounds(v: int, d: int)
    requires
        v < 0,
        d >= 1,
    ensures
        v <= v / d <= 0,
{
    vstd::arithmetic::div_mod::lemma_fundamental_div_mod(v, d);
    let q = v / d;
    let r = v % d;
    vstd::arithmetic::div_mod::lemma_mod_division_less_than_divisor(v, d);
    assert(v == d * q + r);
    assert(v <= q <= 0) by (nonlinear_arith)
        requires
            v == d * q + r,
            0 <= r < d,
            v < 0,
            d >= 1,
    ;
}

/// A truncating remainder by a positive divisor is smaller than the divisor
/// in magnitude.
pub proof fn lemma_trem_magnitude(a: int, b: int)
    requires
        b > 0,
    ensures
        -b < trem(a, b) < b,
{
    if a > 0 {
        vstd::arithmetic::div_mod::lemma_mod_division_less_than_divisor(a, b);
    } else if a < 0 {
        vstd::arithmetic::div_mod::lemma_mod_division_less_than_divisor(a * -1, b);
    }
}

/// What truncating division leaves over is smaller than the divisor in
/// magnitude.
pub proof fn lemma_tdiv_remainder(a: int, b: int)
    requires
        b > 0,
    ensures
        -b < a - b * tdiv(a, b) < b,
{
    if a >= 0 {
        vstd::arithmetic::div_mod::lemma_fundamental_div_mod(a, b);
        vstd::arithmetic::div_mod::lemma_mod_division_less_than_divisor(a, b);
    } else {
        let m = a * -1;
        vstd::arithmetic::div_mod::lemma_fundamental_div_mod(m, b);
        vstd::arithmetic::div_mod::lemma_mod_division_less_than_divisor(m, b);
        assert(m == b * (m / b) + m % b);
        assert(a - b * tdiv(a, b) == -(m - b * (m / b))) by {
            assert(tdiv(a, b) == (m / b) * -1);
            assert(b * ((m / b) * -1) == -(b * (m / b))) by (nonlinear_arith);
        }
    }
}

/// Truncating division never grows the magnitude when the divisor is nonzero.
pub proof fn lemma_tdiv_magnitude(a: int, b: int)
    requires
        b != 0,
    ensures
        a >= 0 ==> -a <= tdiv(a, b) <= a,
        a < 0 ==> a <= tdiv(a, b) <= -a,
{
    if a != 0 {
        let m: int = if a > 0 { a } else { -a };
        let n: int = if b > 0 { b } else { -b };
        assert(m > 0 && n >= 1);
        vstd::arithmetic::div_mod::lemma_div_pos_is_pos(m, n);
        vstd::arithmetic::div_mod::lemma_div_nonincreasing(m, n);
        assert(0 <= m / n <= m);
    }
}

} // verus!
