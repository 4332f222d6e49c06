use softraster::fixed::{Fx, FX_SCALE};
use softraster::vec3::Vector3;

fn v3(x: f64, y: f64, z: f64) -> Vector3 {
    Vector3 {
        x: Fx { raw: (x * FX_SCALE as f64) as i64 },
        y: Fx { raw: (y * FX_SCALE as f64) as i64 },
        z: Fx { raw: (z * FX_SCALE as f64) as i64 },
    }
}

fn len_f(v: &Vector3) -> f64 {
    let x = v.x.raw as f64 / FX_SCALE as f64;
    let y = v.y.raw as f64 / FX_SCALE as f64;
    let z = v.z.raw as f64 / FX_SCALE as f64;
    (x * x + y * y + z * z).sqrt()
}

#[test]
fn normalize_yields_unit_length() {
    // A vector well above the precision floor normalizes to unit length
    // within the stated tolerance.
    let v = v3(3.0, 4.0, 0.0);
    let n = v.normalizeV();
    assert!((len_f(&n) - 1.0).abs() < 1e-4);
    // and stays parallel: components keep their ratios.
    assert!((n.x.raw as f64 / n.y.raw as f64 - 0.75).abs() < 1e-4);
    assert_eq!(n.z.raw, 0);
}

#[test]
fn normalize_of_tiny_vector_is_zero() {
    // Below the threshold the result is the zero vector, not a division by
    // almost nothing.
    let v = Vector3 { x: Fx { raw: 3 }, y: Fx { raw: 2 }, z: Fx { raw: 1 } };
    let n = v.normalizeV();
    assert_eq!((n.x.raw, n.y.raw, n.z.raw), (0, 0, 0));
}

#[test]
fn normalize_in_place_updates_and_returns() {
    let mut v = v3(0.0, 9.0, 0.0);
    let r = v.normalize();
    assert_eq!(v.y.raw, FX_SCALE);
    assert_eq!(r.y.raw, FX_SCALE);
    // Too-short vectors are left untouched by the in-place form.
    let mut s = Vector3 { x: Fx { raw: 2 }, y: Fx { raw: 0 }, z: Fx { raw: 0 } };
    s.normalize();
    assert_eq!(s.x.raw, 2);
}

#[test]
fn dot_and_cross_products() {
    let a = v3(1.0, 0.0, 0.0);
    let b = v3(0.0, 1.0, 0.0);
    assert_eq!(Vector3::dot(&a, &b).raw, 0);
    let c = a.cross(&b);
    assert_eq!((c.x.raw, c.y.raw, c.z.raw), (0, 0, FX_SCALE));
    let d = Vector3::cross2(&b, &a);
    assert_eq!((d.x.raw, d.y.raw, d.z.raw), (0, 0, -FX_SCALE));
    assert_eq!(Vector3::dot(&v3(1.0, 2.0, 3.0), &v3(4.0, 5.0, 6.0)).raw, 32 * FX_SCALE);
}

#[test]
fn add_subtract_scale() {
    let a = v3(1.0, 2.0, 3.0);
    let b = v3(0.5, 0.25, -1.0);
    let s = Vector3::add(&a, &b);
    assert_eq!(s.x.raw, 98304);
    assert_eq!(s.z.raw, 2 * FX_SCALE);
    let d = Vector3::subtract(&a, &b);
    assert_eq!(d.y.raw, 114688);
    let sc = Vector3::scale(&a, Fx { raw: FX_SCALE / 2 });
    assert_eq!((sc.x.raw, sc.y.raw, sc.z.raw), (32768, FX_SCALE, 98304));
}

#[test]
fn length_matches_euclid() {
    let v = v3(3.0, 4.0, 0.0);
    assert_eq!(v.length().raw, 5 * FX_SCALE);
    let w = v3(1.0, 2.0, 2.0);
    assert_eq!(w.length().raw, 3 * FX_SCALE);
}
