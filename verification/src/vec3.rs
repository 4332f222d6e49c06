//! 3D vectors over the fixed-point scalar: arithmetic, products, length and
//! normalization.

use crate::fixed::{
    fx, fx_add, fx_div, fx_mul, fx_sub, isqrt, lemma_i64_product_fits, lemma_isqrt,
    lemma_isqrt_unique, sat64, Fx,
};
use vstd::prelude::*;

verus! {

/// A vector whose length is at or below this raw bound normalizes to nothing:
/// it stands at the edge of the representable precision.
pub const NORMALIZE_EPS_RAW: i64 = 6;

#[derive(Clone, Copy, Debug, PartialEq, Eq, Structural)]
pub struct Vector3 {
    pub x: Fx,
    pub y: Fx,
    pub z: Fx,
}

impl Vector3 {
    pub open spec fn spec_add(a: Vector3, b: Vector3) -> Vector3 {
        Vector3 {
            x: fx(fx_add(a.x.raw as int, b.x.raw as int)),
            y: fx(fx_add(a.y.raw as int, b.y.raw as int)),
            z: fx(fx_add(a.z.raw as int, b.z.raw as int)),
        }
    }

    pub open spec fn spec_sub(a: Vector3, b: Vector3) -> Vector3 {
        Vector3 {
            x: fx(fx_sub(a.x.raw as int, b.x.raw as int)),
            y: fx(fx_sub(a.y.raw as int, b.y.raw as int)),
            z: fx(fx_sub(a.z.raw as int, b.z.raw as int)),
        }
    }

    /// The cross product, component by component.
    pub open spec fn spec_cross(a: Vector3, b: Vector3) -> Vector3 {
        Vector3 {
            x: fx(
                fx_sub(
                    fx_mul(a.y.raw as int, b.z.raw as int),
                    fx_mul(a.z.raw as int, b.y.raw as int),
                ),
            ),
            y: fx(
                fx_sub(
                    fx_mul(a.z.raw as int, b.x.raw as int),
                    fx_mul(a.x.raw as int, b.z.raw as int),
                ),
            ),
            z: fx(
                fx_sub(
                    fx_mul(a.x.raw as int, b.y.raw as int),
                    fx_mul(a.y.raw as int, b.x.raw as int),
                ),
            ),
        }
    }

    /// The dot product: the three componentwise products summed left to right.
    pub open spec fn spec_dot(a: Vector3, b: Vector3) -> int {
        fx_add(
            fx_add(
                fx_mul(a.x.raw as int, b.x.raw as int),
                fx_mul(a.y.raw as int, b.y.raw as int),
            ),
            fx_mul(a.z.raw as int, b.z.raw as int),
        )
    }

    /// Componentwise scaling by a scalar.
    pub open spec fn spec_scale(a: Vector3, s: Fx) -> Vector3 {
        Vector3 {
            x: fx(fx_mul(a.x.raw as int, s.raw as int)),
            y: fx(fx_mul(a.y.raw as int, s.raw as int)),
            z: fx(fx_mul(a.z.raw as int, s.raw as int)),
        }
    }

    /// The sum of the squared raw components: the squared length carries a
    /// double scale, so the raw length is its integer square root.
    pub open spec fn spec_sqsum(a: Vector3) -> int {
        (a.x.raw as int) * (a.x.raw as int) + (a.y.raw as int) * (a.y.raw as int) + (a.z.raw
            as int) * (a.z.raw as int)
    }

    /// The raw value of the vector's length.
    pub open spec fn spec_length_raw(a: Vector3) -> int {
        sat64(isqrt(Vector3::spec_sqsum(a)))
    }

    /// Normalization: each component divided by the length, unless the vector
    /// is too short to normalize, in which case it is left as it is.
    pub open spec fn spec_normalize(a: Vector3) -> Vector3 {
        let len = Vector3::spec_length_raw(a);
        if len > NORMALIZE_EPS_RAW as int {
            Vector3 {
                x: fx(fx_div(a.x.raw as int, len)),
                y: fx(fx_div(a.y.raw as int, len)),
                z: fx(fx_div(a.z.raw as int, len)),
            }
        } else {
            a
        }
    }

    /// Normalization to a fresh vector: a vector too short to normalize
    /// yields the zero vector.
    pub open spec fn spec_normalize_v(a: Vector3) -> Vector3 {
        let len = Vector3::spec_length_raw(a);
        if len > NORMALIZE_EPS_RAW as int {
            Vector3 {
                x: fx(fx_div(a.x.raw as int, len)),
                y: fx(fx_div(a.y.raw as int, len)),
                z: fx(fx_div(a.z.raw as int, len)),
            }
        } else {
            Vector3 { x: fx(0), y: fx(0), z: fx(0) }
        }
    }

    pub fn new(x: Fx, y: Fx, z: Fx) -> (v: Vector3)
        ensures
            v == (Vector3 { x, y, z }),
    {
        Vector3 { x, y, z }
    }

    pub fn add(a: &Vector3, b: &Vector3) -> (v: Vector3)
        ensures
            v == Vector3::spec_add(*a, *b),
    {
        Vector3 { x: a.x.add(b.x), y: a.y.add(b.y), z: a.z.add(b.z) }
    }

    pub fn subtract(a: &Vector3, b: &Vector3) -> (v: Vector3)
        ensures
            v == Vector3::spec_sub(*a, *b),
    {
        Vector3 { x: a.x.sub(b.x), y: a.y.sub(b.y), z: a.z.sub(b.z) }
    }

    pub fn cross2(a: &Vector3, b: &Vector3) -> (v: Vector3)
        ensures
            v == Vector3::spec_cross(*a, *b),
    {
        Vector3 {
            x: a.y.mul(b.z).sub(a.z.mul(b.y)),
            y: a.z.mul(b.x).sub(a.x.mul(b.z)),
            z: a.x.mul(b.y).sub(a.y.mul(b.x)),
        }
    }

    pub fn cross(&self, b: &Vector3) -> (v: Vector3)
        ensures
            v == Vector3::spec_cross(*self, *b),
    {
        Vector3::cross2(self, b)
    }

    pub fn dot(a: &Vector3, b: &Vector3) -> (r: Fx)
        ensures
            r.as_int() == Vector3::spec_dot(*a, *b),
    {
        a.x.mul(b.x).add(a.y.mul(b.y)).add(a.z.mul(b.z))
    }

    pub fn scale(a: &Vector3, s: Fx) -> (v: Vector3)
        ensures
            v == Vector3::spec_scale(*a, s),
    {
        Vector3 { x: a.x.mul(s), y: a.y.mul(s), z: a.z.mul(s) }
    }

    pub fn length(&self) -> (r: Fx)
        ensures
            r.as_int() == Vector3::spec_length_raw(*self),
    {
        proof {
            lemma_i64_product_fits(self.x.raw as int, self.x.raw as int);
            lemma_i64_product_fits(self.y.raw as int, self.y.raw as int);
            lemma_i64_product_fits(self.z.raw as int, self.z.raw as int);
            lemma_square_nonneg(self.x.raw as int);
            lemma_square_nonneg(self.y.raw as int);
            lemma_square_nonneg(self.z.raw as int);
        }
        let sx: u128 = ((self.x.raw as i128) * (self.x.raw as i128)) as u128;
        let sy: u128 = ((self.y.raw as i128) * (self.y.raw as i128)) as u128;
        let sz: u128 = ((self.z.raw as i128) * (self.z.raw as i128)) as u128;
        let n: u128 = sx + sy + sz;
        let s = crate::fixed::isqrt_u128(n);
        proof {
            lemma_isqrt_unique(n as int, s as int);
        }
        let r: i64 = if s > i64::MAX as u128 {
            i64::MAX
        } else {
            s as i64
        };
        Fx { raw: r }
    }

    /// Normalize in place; too-short vectors are left untouched.  Returns a
    /// copy of the (possibly updated) vector.
    pub fn normalize(&mut self) -> (v: Vector3)
        ensures
            *final(self) == Vector3::spec_normalize(*old(self)),
            v == *final(self),
    {
        let len = self.length();
        if len.raw > NORMALIZE_EPS_RAW {
            self.x = self.x.div(len);
            self.y = self.y.div(len);
            self.z = self.z.div(len);
        }
        Vector3 { x: self.x, y: self.y, z: self.z }
    }

    /// Normalized copy; too-short vectors yield the zero vector.
    #[allow(non_snake_case)]
    pub fn normalizeV(&self) -> (v: Vector3)
        ensures
            v == Vector3::spec_normalize_v(*self),
    {
        let len = self.length();
        if len.raw > NORMALIZE_EPS_RAW {
            Vector3 { x: self.x.div(len), y: self.y.div(len), z: self.z.div(len) }
        } else {
            Vector3 { x: Fx { raw: 0 }, y: Fx { raw: 0 }, z: Fx { raw: 0 } }
        }
    }
}

/// A square is never negative.
pub proof fn lemma_square_nonneg(a: int)
    ensures
        a * a >= 0,
{
    assert(a * a >= 0) by (nonlinear_arith);
}

/// A vector at or below the normalization threshold normalizes to the zero
/// vector.
pub proof fn lemma_normalize_v_short(v: Vector3)
    requires
        Vector3::spec_length_raw(v) <= NORMALIZE_EPS_RAW as int,
    ensures
        Vector3::spec_normalize_v(v) == (Vector3 { x: fx(0), y: fx(0), z: fx(0) }),
{
}

/// A normalized vector is parallel to its source: each component, scaled
/// back by the length, lands within one truncation step of the source
/// component at full scale.
pub proof fn lemma_normalize_v_parallel(v: Vector3)
    requires
        Vector3::spec_length_raw(v) > NORMALIZE_EPS_RAW as int,
        -0x4000_0000_0000 <= v.x.raw as int <= 0x4000_0000_0000,
        -0x4000_0000_0000 <= v.y.raw as int <= 0x4000_0000_0000,
        -0x4000_0000_0000 <= v.z.raw as int <= 0x4000_0000_0000,
    ensures
        ({
            let r = Vector3::spec_normalize_v(v);
            let len = Vector3::spec_length_raw(v);
            &&& -len < (v.x.raw as int) * 65536 - len * (r.x.raw as int) < len
            &&& -len < (v.y.raw as int) * 65536 - len * (r.y.raw as int) < len
            &&& -len < (v.z.raw as int) * 65536 - len * (r.z.raw as int) < len
        }),
{
    let len = Vector3::spec_length_raw(v);
    lemma_normalize_component(v.x.raw as int, len);
    lemma_normalize_component(v.y.raw as int, len);
    lemma_normalize_component(v.z.raw as int, len);
}

/// One component of a normalization: the saturating fixed division is exact
/// truncating division here, and its remainder is below the length.
proof fn lemma_normalize_component(c: int, len: int)
    requires
        len > 0,
        -0x4000_0000_0000 <= c <= 0x4000_0000_0000,
    ensures
        -len < c * 65536 - len * fx_div(c, len) < len,
{
    crate::fixed::lemma_tdiv_magnitude(c * 65536, len);
    assert(fx_div(c, len) == crate::fixed::tdiv(c * 65536, len));
    crate::fixed::lemma_tdiv_remainder(c * 65536, len);
}

/// A vector of unit length or more normalizes to unit length within the
/// stated tolerance: the squared raw length of the result lands within five
/// raw units (under one part in ten thousand) of one, squared.
pub proof fn lemma_normalize_v_unit_length(v: Vector3)
    requires
        Vector3::spec_length_raw(v) >= 65536,
        -0x100_0000_0000 <= v.x.raw as int <= 0x100_0000_0000,
        -0x100_0000_0000 <= v.y.raw as int <= 0x100_0000_0000,
        -0x100_0000_0000 <= v.z.raw as int <= 0x100_0000_0000,
    ensures
        ({
            let q = Vector3::spec_sqsum(Vector3::spec_normalize_v(v));
            (65536 - 5) * (65536 - 5) <= q <= (65536 + 5) * (65536 + 5)
        }),
{
    let x = v.x.raw as int;
    let y = v.y.raw as int;
    let z = v.z.raw as int;
    let n = Vector3::spec_sqsum(v);
    assert(0 <= x * x <= 0x1_0000_0000_0000_0000_0000 && 0 <= y * y
        <= 0x1_0000_0000_0000_0000_0000 && 0 <= z * z <= 0x1_0000_0000_0000_0000_0000)
        by (nonlinear_arith)
        requires
            -0x100_0000_0000 <= x <= 0x100_0000_0000,
            -0x100_0000_0000 <= y <= 0x100_0000_0000,
            -0x100_0000_0000 <= z <= 0x100_0000_0000,
    ;
    lemma_isqrt(n);
    let l = isqrt(n);
    assert(l >= 0 && l * l <= n && n < (l + 1) * (l + 1));
    assert(l <= 0x200_0000_0000) by (nonlinear_arith)
        requires
            l >= 0,
            l * l <= n,
            n <= 0x3_0000_0000_0000_0000_0000,
    ;
    assert(Vector3::spec_length_raw(v) == l);
    assert(l >= 65536);
    // The three divisions and their remainders.
    let rx = fx_div(x, l);
    let ry = fx_div(y, l);
    let rz = fx_div(z, l);
    lemma_unit_component(x, l, n);
    lemma_unit_component(y, l, n);
    lemma_unit_component(z, l, n);
    let ex = x * 65536 - l * rx;
    let ey = y * 65536 - l * ry;
    let ez = z * 65536 - l * rz;
    let q = rx * rx + ry * ry + rz * rz;
    assert(Vector3::spec_sqsum(Vector3::spec_normalize_v(v)) == q);
    // Per-component expansion of the exact squares.
    assert(x * 65536 * (x * 65536) == l * l * (rx * rx) + 2 * l * (rx * ex) + ex * ex)
        by (nonlinear_arith)
        requires
            x * 65536 == l * rx + ex,
    ;
    assert(y * 65536 * (y * 65536) == l * l * (ry * ry) + 2 * l * (ry * ey) + ey * ey)
        by (nonlinear_arith)
        requires
            y * 65536 == l * ry + ey,
    ;
    assert(z * 65536 * (z * 65536) == l * l * (rz * rz) + 2 * l * (rz * ez) + ez * ez)
        by (nonlinear_arith)
        requires
            z * 65536 == l * rz + ez,
    ;
    // The left sides sum to the squared scale times the squared source.
    assert(x * 65536 * (x * 65536) == 0x1_0000_0000 * (x * x)) by (nonlinear_arith);
    assert(y * 65536 * (y * 65536) == 0x1_0000_0000 * (y * y)) by (nonlinear_arith);
    assert(z * 65536 * (z * 65536) == 0x1_0000_0000 * (z * z)) by (nonlinear_arith);
    let ee = rx * ex + ry * ey + rz * ez;
    let ff = ex * ex + ey * ey + ez * ez;
    assert(l * l * (rx * rx) + l * l * (ry * ry) + l * l * (rz * rz) == l * l * q)
        by (nonlinear_arith)
        requires
            q == rx * rx + ry * ry + rz * rz,
    ;
    assert(2 * l * (rx * ex) + 2 * l * (ry * ey) + 2 * l * (rz * ez) == 2 * l * ee)
        by (nonlinear_arith)
        requires
            ee == rx * ex + ry * ey + rz * ez,
    ;
    assert(0x1_0000_0000 * n == l * l * q + 2 * l * ee + ff);
    // Magnitude bounds on the cross terms and the remainders.
    assert(-196611 * l <= ee <= 196611 * l) by (nonlinear_arith)
        requires
            -65537 <= rx <= 65537,
            -65537 <= ry <= 65537,
            -65537 <= rz <= 65537,
            -l < ex < l,
            -l < ey < l,
            -l < ez < l,
            l > 0,
            ee == rx * ex + ry * ey + rz * ez,
    ;
    assert(0 <= ff <= 3 * (l * l)) by (nonlinear_arith)
        requires
            -l < ex < l,
            -l < ey < l,
            -l < ez < l,
            l > 0,
            ff == ex * ex + ey * ey + ez * ez,
    ;
    // Bound the scaled source square by the length on both sides.
    assert(0x1_0000_0000 * (l * l) <= 0x1_0000_0000 * n);
    assert(0x1_0000_0000 * n <= 0x1_0000_0000 * (l * l) + 0x2_0000_0000 * l) by {
        assert(n <= l * l + 2 * l) by (nonlinear_arith)
            requires
                n < (l + 1) * (l + 1),
        ;
    }
    // Combine: the squared result length is pinned between the bounds.
    assert(l * l >= 1) by (nonlinear_arith)
        requires
            l >= 1,
    ;
    assert(-393222 * (l * l) <= 2 * l * ee <= 393222 * (l * l)) by (nonlinear_arith)
        requires
            -196611 * l <= ee <= 196611 * l,
            l > 0,
    ;
    assert(0x2_0000_0000 * l <= 131072 * (l * l)) by (nonlinear_arith)
        requires
            l >= 65536,
    ;
    assert(l * l * q >= 4294574071 * (l * l));
    assert(l * l * q <= 4295491590 * (l * l));
    assert((65536 - 5) * (65536 - 5) <= q <= (65536 + 5) * (65536 + 5)) by (nonlinear_arith)
        requires
            l * l * q >= 4294574071 * (l * l),
            l * l * q <= 4295491590 * (l * l),
            l * l >= 1,
    ;
}

/// One component of the unit-length argument: the division is exact
/// truncation, its remainder is below the length, and the quotient cannot
/// leave the unit band by more than one raw step.
proof fn lemma_unit_component(c: int, l: int, n: int)
    requires
        l >= 65536,
        -0x100_0000_0000 <= c <= 0x100_0000_0000,
        c * c <= n,
        n < (l + 1) * (l + 1),
    ensures
        fx_div(c, l) == crate::fixed::tdiv(c * 65536, l),
        c * 65536 == l * fx_div(c, l) + (c * 65536 - l * fx_div(c, l)),
        -l < c * 65536 - l * fx_div(c, l) < l,
        -65537 <= fx_div(c, l) <= 65537,
{
    crate::fixed::lemma_tdiv_magnitude(c * 65536, l);
    assert(fx_div(c, l) == crate::fixed::tdiv(c * 65536, l));
    crate::fixed::lemma_tdiv_remainder(c * 65536, l);
    let r = fx_div(c, l);
    let e = c * 65536 - l * r;
    assert(-l <= c <= l) by (nonlinear_arith)
        requires
            c * c <= n,
            n < (l + 1) * (l + 1),
            l >= 1,
    ;
    assert(-65537 <= r <= 65537) by (nonlinear_arith)
        requires
            l * r == c * 65536 - e,
            -l < e < l,
            -l <= c <= l,
            l >= 65536,
    ;
}

} // verus!
