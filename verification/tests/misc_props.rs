use softraster::camera::Camera;
use softraster::color::Color;
use softraster::fixed::{Fx, FX_SCALE};
use softraster::rect::Rect;
use softraster::texture::Texture;
use softraster::triangle_gen::TriangleGen;
use softraster::trig::{cos_deg, sin_deg, tan_deg};
use softraster::vec2::Vector2;
use softraster::vec3::Vector3;

fn fxf(v: f64) -> Fx {
    Fx { raw: (v * FX_SCALE as f64) as i64 }
}

fn to_f(v: Fx) -> f64 {
    v.raw as f64 / FX_SCALE as f64
}

#[test]
fn alpha_blend_weighs_both_sides() {
    let top = Color::new(100, 150, 200, 128);
    let bottom = Color::new(50, 60, 70, 200);
    let c = top.alpha_blended(bottom);
    assert_eq!((c.r, c.g, c.b, c.a), (69, 98, 127, 142));
    // A fully opaque source hides the destination entirely.
    let opaque = Color::new(10, 20, 30, 255);
    let over = opaque.alpha_blended(bottom);
    assert_eq!((over.r, over.g, over.b, over.a), (10, 20, 30, 255));
}

#[test]
fn trig_hits_the_textbook_values() {
    assert_eq!(sin_deg(fxf(30.0)).raw, 32768);
    assert_eq!(cos_deg(fxf(60.0)).raw, 32768);
    assert_eq!(cos_deg(fxf(90.0)).raw, 0);
    assert_eq!(sin_deg(fxf(90.0)).raw, FX_SCALE);
    assert_eq!(tan_deg(fxf(45.0)).raw, FX_SCALE);
    assert_eq!(sin_deg(fxf(210.0)).raw, -32768);
    assert_eq!(tan_deg(fxf(22.5)).raw, 27145);
}

#[test]
fn trig_tracks_the_circle() {
    for deg in (-360..=720).step_by(7) {
        let d = fxf(deg as f64);
        let rad = (deg as f64).to_radians();
        assert!((to_f(sin_deg(d)) - rad.sin()).abs() < 2e-3, "sin {deg}");
        assert!((to_f(cos_deg(d)) - rad.cos()).abs() < 2e-3, "cos {deg}");
    }
}

#[test]
fn camera_zoom_moves_along_the_view() {
    let mut cam = Camera::new();
    cam.zoom(fxf(1.0));
    // One unit toward the origin from (7, 5, 8): distance ~11.747.
    assert!((to_f(cam.pos.x) - (7.0 - 7.0 / 138f64.sqrt())).abs() < 1e-3);
    assert!((to_f(cam.pos.y) - (5.0 - 5.0 / 138f64.sqrt())).abs() < 1e-3);
    assert!((to_f(cam.pos.z) - (8.0 - 8.0 / 138f64.sqrt())).abs() < 1e-3);
    assert_eq!(cam.pointing_at.x.raw, 0);
}

#[test]
fn camera_drag_pans_camera_and_target_together() {
    let mut cam = Camera::new();
    let before_target = cam.pointing_at;
    let res = Vector2 { x: fxf(640.0), y: fxf(480.0) };
    cam.drag_move(&Vector2 { x: fxf(100.0), y: fxf(100.0) }, &Vector2 { x: fxf(140.0), y: fxf(90.0) }, &res);
    let moved = Vector3::subtract(&cam.pointing_at, &before_target);
    // Position and target move by the same vector, and the drag did move.
    assert!(moved.x.raw != 0 || moved.y.raw != 0 || moved.z.raw != 0);
    let pos_delta = Vector3::subtract(&cam.pos, &Vector3 { x: fxf(7.0), y: fxf(5.0), z: fxf(8.0) });
    assert!((to_f(pos_delta.x) - to_f(moved.x)).abs() < 1e-3);
    assert!((to_f(pos_delta.y) - to_f(moved.y)).abs() < 1e-3);
    assert!((to_f(pos_delta.z) - to_f(moved.z)).abs() < 1e-3);
}

#[test]
fn vector2_arithmetic_is_componentwise() {
    let a = Vector2 { x: fxf(3.0), y: fxf(-2.0) };
    let b = Vector2 { x: fxf(1.5), y: fxf(4.0) };
    let d = a.sub(b);
    assert_eq!(to_f(d.x), 1.5);
    assert_eq!(to_f(d.y), -6.0);
    let m = a.mul(b);
    assert_eq!(to_f(m.x), 4.5);
    assert_eq!(to_f(m.y), -8.0);
}

#[test]
fn rect_clamp_follows_the_overshoot_rule() {
    let r = Rect::new(
        Vector2 { x: fxf(5.0), y: fxf(5.0) },
        Vector2 { x: fxf(10.0), y: fxf(10.0) },
    );
    let limit = Rect::new(
        Vector2 { x: fxf(8.0), y: fxf(2.0) },
        Vector2 { x: fxf(7.0), y: fxf(20.0) },
    );
    let c = r.clamped_to(limit);
    assert_eq!(to_f(c.pos.x), 8.0);
    assert_eq!(to_f(c.pos.y), 5.0);
    assert_eq!(to_f(c.size.x), 23.0);
    assert_eq!(to_f(c.size.y), 20.0);
}

#[test]
fn texture_reads_back_writes() {
    let mut t = Texture::new(4, 3);
    assert_eq!(*t.get_pixel(0, 0), Color::new(0, 0, 0, 255));
    assert_eq!(*t.get_pixel(3, 2), Color::new(0, 0, 0, 255));
    *t.get_pixel_mut(2, 1) = Color::new(9, 8, 7, 6);
    assert_eq!(*t.get_pixel(2, 1), Color::new(9, 8, 7, 6));
    assert_eq!(*t.get_pixel(1, 2), Color::new(0, 0, 0, 255));
}

#[test]
fn floor_rect_orders_its_corners() {
    let color = Color::new(1, 2, 3, 255);
    let a = TriangleGen::create_floor_rect(
        Vector2 { x: fxf(-1.0), y: fxf(-1.5) },
        Vector2 { x: fxf(1.0), y: fxf(1.5) },
        fxf(0.25),
        color,
    );
    let b = TriangleGen::create_floor_rect(
        Vector2 { x: fxf(1.0), y: fxf(1.5) },
        Vector2 { x: fxf(-1.0), y: fxf(-1.5) },
        fxf(0.25),
        color,
    );
    assert_eq!(a.len(), 2);
    assert_eq!(a[0], b[0]);
    assert_eq!(a[1], b[1]);
    assert_eq!(to_f(a[0].v1.pos.x), -1.0);
    assert_eq!(to_f(a[0].v1.pos.y), 0.25);
    assert_eq!(to_f(a[0].v1.pos.z), -1.5);
    assert_eq!(to_f(a[0].v2.pos.x), 1.0);
    // Texture coordinates follow the rectangle's size.
    assert_eq!(to_f(a[0].v2.texture_coord.x), 2.0);
    assert_eq!(to_f(a[0].v3.texture_coord.y), 3.0);
}

#[test]
fn wall_runs_along_its_rotation() {
    let color = Color::new(1, 2, 3, 255);
    let base = Vector3 { x: fxf(-1.0), y: fxf(0.0), z: fxf(-1.5) };
    let w = TriangleGen::create_wall(&base, fxf(2.0), fxf(1.5), fxf(0.0), &color);
    assert_eq!(w.len(), 2);
    // Rotation zero runs along x: the far bottom corner is at x + length.
    assert_eq!(to_f(w[0].v1.pos.x), 1.0);
    assert_eq!(to_f(w[0].v1.pos.y), 0.0);
    assert_eq!(to_f(w[0].v1.pos.z), -1.5);
    // The top corners gain the height.
    assert_eq!(to_f(w[0].v3.pos.y), 1.5);
    assert_eq!(w[1].v3.pos, base);
}

#[test]
fn line_billboards_against_the_camera() {
    let color = Color::new(255, 0, 0, 255);
    let cam = Camera {
        fov: fxf(45.0),
        pos: Vector3 { x: fxf(0.0), y: fxf(0.0), z: fxf(10.0) },
        pointing_at: Vector3 { x: fxf(0.0), y: fxf(0.0), z: fxf(0.0) },
    };
    let l = TriangleGen::create_3d_line(
        &Vector3 { x: fxf(0.0), y: fxf(5.0), z: fxf(0.0) },
        &Vector3 { x: fxf(0.0), y: fxf(0.0), z: fxf(0.0) },
        &cam,
        &color,
        &color,
        fxf(0.1),
    );
    assert_eq!(l.len(), 2);
    // The camera looks down negative z, so its right vector is positive x
    // and the quad spreads half the thickness to each side in x.
    assert!((to_f(l[0].v1.pos.x) - 0.05).abs() < 1e-3);
    assert!((to_f(l[1].v2.pos.x) + 0.05).abs() < 1e-3);
    assert_eq!(to_f(l[0].v1.pos.y), 5.0);
}
