use softraster::color::Color;
use softraster::fixed::{Fx, FX_SCALE};
use softraster::triangle::Triangle;
use softraster::vec2::Vector2;
use softraster::vec3::Vector3;
use softraster::vertex::Vertex;

fn fxf(v: f64) -> Fx {
    Fx { raw: (v * FX_SCALE as f64) as i64 }
}

fn vert(x: f64, y: f64, z: f64, color: Color) -> Vertex {
    Vertex::new(
        &Vector3 { x: fxf(x), y: fxf(y), z: fxf(z) },
        &Vector2 { x: fxf(0.0), y: fxf(0.0) },
        &color,
    )
}

fn tri() -> Triangle {
    let c = Color::new(255, 0, 0, 255);
    Triangle::new(
        vert(10.0, 10.0, 1.0, c),
        vert(110.0, 10.0, 2.0, c),
        vert(10.0, 90.0, 3.0, c),
    )
}

#[test]
fn coordinates_sum_to_one() {
    // At assorted sample points, inside and outside the triangle, the three
    // coordinates sum to exactly one.
    let t = tri();
    for &(px, py) in
        [(10.0, 10.0), (50.0, 30.0), (300.0, 300.0), (0.0, 0.0), (-20.0, 55.5)].iter() {
        let (a, b, g) = t.barycentric_coords(fxf(px), fxf(py));
        let sum = a.add(b).add(g);
        assert_eq!(sum.raw, FX_SCALE, "at ({px}, {py})");
    }
}

#[test]
fn vertex_one_is_pure_alpha() {
    let t = tri();
    let (a, b, g) = t.barycentric_coords(t.v1.pos.x, t.v1.pos.y);
    assert_eq!(a.raw, FX_SCALE);
    assert_eq!(b.raw, 0);
    assert_eq!(g.raw, 0);
}

#[test]
fn inside_point_has_nonnegative_weights() {
    let t = tri();
    let (a, b, g) = t.barycentric_coords(fxf(30.0), fxf(30.0));
    assert!(a.raw >= 0 && b.raw >= 0 && g.raw >= 0);
}

#[test]
fn outside_point_has_a_negative_weight() {
    let t = tri();
    let (a, b, g) = t.barycentric_coords(fxf(500.0), fxf(500.0));
    assert!(a.raw < 0 || b.raw < 0 || g.raw < 0);
}

#[test]
fn degenerate_triangle_rejects_every_point() {
    // All three vertices on one point: the denominator vanishes and the
    // coordinates come back all negative, so no pixel ever passes coverage.
    let c = Color::new(1, 2, 3, 255);
    let t = Triangle::new(
        vert(5.0, 5.0, 1.0, c),
        vert(5.0, 5.0, 1.0, c),
        vert(5.0, 5.0, 1.0, c),
    );
    let (a, b, g) = t.barycentric_coords(fxf(5.0), fxf(5.0));
    assert!(a.raw < 0 && b.raw < 0 && g.raw < 0);
}

#[test]
fn interpolated_color_is_opaque_blend() {
    let red = Color::new(200, 0, 0, 10);
    let green = Color::new(0, 100, 0, 20);
    let blue = Color::new(0, 0, 50, 30);
    let t = Triangle::new(
        vert(0.0, 0.0, 1.0, red),
        vert(10.0, 0.0, 1.0, green),
        vert(0.0, 10.0, 1.0, blue),
    );
    let half = Fx { raw: FX_SCALE / 2 };
    let quarter = Fx { raw: FX_SCALE / 4 };
    let c = t.interpolate_color(half, quarter, quarter);
    assert_eq!(c.r, 100);
    assert_eq!(c.g, 25);
    assert_eq!(c.b, 12);
    // Vertex alpha is dropped: the base fill is always opaque.
    assert_eq!(c.a, 255);
}
