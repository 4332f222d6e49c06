use softraster::fixed::{muldiv, Fx, FX_SCALE};

#[test]
fn from_int_scales() {
    assert_eq!(Fx::from_int(3).raw, 3 * FX_SCALE);
    assert_eq!(Fx::from_int(-2).raw, -2 * FX_SCALE);
    assert_eq!(Fx::from_int(0).raw, 0);
}

#[test]
fn add_and_sub_are_exact_in_range() {
    let a = Fx::from_int(5);
    let b = Fx::from_int(7);
    assert_eq!(a.add(b).raw, 12 * FX_SCALE);
    assert_eq!(a.sub(b).raw, -2 * FX_SCALE);
}

#[test]
fn add_saturates_at_the_top() {
    let a = Fx { raw: i64::MAX };
    let b = Fx { raw: 1 };
    assert_eq!(a.add(b).raw, i64::MAX);
    let c = Fx { raw: i64::MIN };
    assert_eq!(c.sub(b).raw, i64::MIN);
}

#[test]
fn mul_truncates_toward_zero() {
    // 1.5 * 2.5 = 3.75
    let a = Fx { raw: 98304 };
    let b = Fx { raw: 163840 };
    assert_eq!(a.mul(b).raw, 245760);
    // (-1.5) * 2.5 = -3.75 exactly representable; a finer case truncates:
    // 0.0001 * 0.0001 underflows to zero.
    let t = Fx { raw: 7 };
    assert_eq!(t.mul(t).raw, 0);
    assert_eq!(a.neg().mul(b).raw, -245760);
}

#[test]
fn div_by_zero_saturates_by_sign() {
    let z = Fx { raw: 0 };
    assert_eq!(Fx::from_int(3).div(z).raw, i64::MAX);
    assert_eq!(Fx::from_int(-3).div(z).raw, i64::MIN);
    assert_eq!(z.div(z).raw, 0);
}

#[test]
fn div_is_exact_on_dyadic_values() {
    let a = Fx::from_int(3);
    let b = Fx::from_int(4);
    // 3 / 4 = 0.75 = 49152 raw
    assert_eq!(a.div(b).raw, 49152);
    assert_eq!(a.neg().div(b).raw, -49152);
}

#[test]
fn floor_and_ceil_units() {
    let a = Fx { raw: 3 * FX_SCALE + 1 };
    assert_eq!(a.floor_units(), 3);
    assert_eq!(a.ceil_units(), 4);
    let b = Fx { raw: -3 * FX_SCALE - 1 };
    assert_eq!(b.floor_units(), -4);
    assert_eq!(b.ceil_units(), -3);
    let c = Fx::from_int(5);
    assert_eq!(c.floor_units(), 5);
    assert_eq!(c.ceil_units(), 5);
}

#[test]
fn rem_truncates_like_rust() {
    let one = Fx { raw: FX_SCALE };
    let a = Fx { raw: (25 * FX_SCALE) / 10 };
    assert_eq!(a.rem(one).raw, FX_SCALE / 2);
    let b = Fx { raw: -(25 * FX_SCALE) / 10 };
    assert_eq!(b.rem(one).raw, -FX_SCALE / 2);
}

#[test]
fn muldiv_keeps_full_precision() {
    // 45 deg -> radians: 2949120 * 205887 / 11796480 = 51471 (0.7853...)
    assert_eq!(muldiv(2949120, 205887, 11796480), 51471);
}

#[test]
fn isqrt_is_exact() {
    assert_eq!(softraster::fixed::isqrt_u128(0), 0);
    assert_eq!(softraster::fixed::isqrt_u128(1), 1);
    assert_eq!(softraster::fixed::isqrt_u128(24), 4);
    assert_eq!(softraster::fixed::isqrt_u128(25), 5);
    assert_eq!(softraster::fixed::isqrt_u128(26), 5);
    assert_eq!(softraster::fixed::isqrt_u128(u128::from(u64::MAX)), 4294967295);
}
