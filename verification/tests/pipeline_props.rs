use softraster::camera::Camera;
use softraster::color::Color;
use softraster::draw_list::DrawList;
use softraster::dummy_passthru_shader::DummyPassthruShader;
use softraster::fixed::{Fx, FX_SCALE};
use softraster::screen::Screen;
use softraster::triangle::Triangle;
use softraster::triangle_gen::TriangleGen;
use softraster::vec2::Vector2;
use softraster::vec3::Vector3;
use softraster::vertex::Vertex;

fn fxf(v: f64) -> Fx {
    Fx { raw: (v * FX_SCALE as f64) as i64 }
}

fn vert(x: f64, y: f64, z: f64, c: Color) -> Vertex {
    Vertex::new(
        &Vector3 { x: fxf(x), y: fxf(y), z: fxf(z) },
        &Vector2 { x: fxf(0.0), y: fxf(0.0) },
        &c,
    )
}

fn count_not(s: &Screen, clear: Color) -> usize {
    s.pixels.iter().filter(|c| **c != clear).count()
}

#[test]
fn in_frustum_triangle_covers_pixels() {
    // All camera-space depths sit strictly between the near and far planes
    // and the triangle brackets the look-at point, so the fill must land at
    // least one pixel.
    let cam = Camera::new();
    let clear = Color::new(0, 190, 255, 255);
    let mut s = Screen::new(640, 480);
    s.clear(&clear);
    let c = Color::new(200, 10, 10, 255);
    let t = Triangle::new(
        vert(0.0, 0.0, 0.0, c),
        vert(1.0, 0.0, 0.0, c),
        vert(0.0, 1.0, 0.0, c),
    );
    t.project_and_fill(&mut s, &cam, &DummyPassthruShader);
    assert!(count_not(&s, clear) >= 1);
}

#[test]
fn beyond_far_plane_everything_is_culled() {
    // Camera at the origin looking down negative z; a triangle at depth 70
    // is past the far plane (60): zero covered pixels.
    let cam = Camera {
        fov: fxf(45.0),
        pos: Vector3 { x: fxf(0.0), y: fxf(0.0), z: fxf(0.0) },
        pointing_at: Vector3 { x: fxf(0.0), y: fxf(0.0), z: fxf(-1.0) },
    };
    let clear = Color::new(0, 190, 255, 255);
    let mut s = Screen::new(64, 48);
    s.clear(&clear);
    let c = Color::new(200, 10, 10, 255);
    let t = Triangle::new(
        vert(0.0, 0.0, -70.0, c),
        vert(5.0, 0.0, -70.0, c),
        vert(0.0, 5.0, -70.0, c),
    );
    t.project_and_fill(&mut s, &cam, &DummyPassthruShader);
    assert_eq!(count_not(&s, clear), 0);
}

#[test]
fn near_plane_crossing_culls_the_whole_triangle() {
    // One vertex behind the camera discards the whole triangle: there is no
    // clipping, only whole-triangle culling.
    let cam = Camera {
        fov: fxf(45.0),
        pos: Vector3 { x: fxf(0.0), y: fxf(0.0), z: fxf(0.0) },
        pointing_at: Vector3 { x: fxf(0.0), y: fxf(0.0), z: fxf(-1.0) },
    };
    let clear = Color::new(0, 190, 255, 255);
    let mut s = Screen::new(64, 48);
    s.clear(&clear);
    let c = Color::new(200, 10, 10, 255);
    let t = Triangle::new(
        vert(0.0, 0.0, 1.0, c),  // behind the camera
        vert(5.0, 0.0, -10.0, c),
        vert(0.0, 5.0, -10.0, c),
    );
    t.project_and_fill(&mut s, &cam, &DummyPassthruShader);
    assert_eq!(count_not(&s, clear), 0);
}

#[test]
fn degenerate_triangle_rasterizes_to_nothing() {
    let cam = Camera::new();
    let clear = Color::new(0, 190, 255, 255);
    let mut s = Screen::new(640, 480);
    s.clear(&clear);
    let c = Color::new(200, 10, 10, 255);
    let t = Triangle::new(
        vert(0.0, 0.0, 0.0, c),
        vert(0.0, 0.0, 0.0, c),
        vert(0.0, 0.0, 0.0, c),
    );
    t.project_and_fill(&mut s, &cam, &DummyPassthruShader);
    assert_eq!(count_not(&s, clear), 0);
}

#[test]
fn floor_quad_scene_renders_centered() {
    // The standard camera over a floor quad: a contiguous quadrilateral
    // near the image center in the quad's color, depths near the camera
    // distance, and the clear color everywhere else.
    let cam = Camera::new();
    assert_eq!(cam.fov, fxf(45.0));
    assert_eq!(cam.pos, Vector3 { x: fxf(7.0), y: fxf(5.0), z: fxf(8.0) });
    let clear = Color::new(0, 190, 255, 255);
    let mut s = Screen::new(640, 480);
    s.clear(&clear);
    let quad_color = Color::new(128, 128, 0, 255);
    let tris = TriangleGen::create_floor_rect(
        Vector2 { x: fxf(-1.0), y: fxf(-1.5) },
        Vector2 { x: fxf(1.0), y: fxf(1.5) },
        fxf(0.0),
        quad_color,
    );
    let mut dl = DrawList::new();
    dl.add(&tris);
    dl.draw(&mut s, &cam, &DummyPassthruShader);

    // The screen center lies on the quad, at the camera's distance to the
    // origin (about 11.75), short of the fog, so the color is exact.
    let center = s.pixels[240 * 640 + 320];
    assert_eq!(center, quad_color);
    let center_depth = s.depth_buffer[240 * 640 + 320].raw as f64 / FX_SCALE as f64;
    assert!(9.0 < center_depth && center_depth < 12.0, "depth {center_depth}");

    // A solid block around the center is covered too (contiguity).
    for y in 230..=250 {
        for x in 310..=330 {
            assert_ne!(s.pixels[y * 640 + x], clear, "at ({x}, {y})");
        }
    }

    // The quad covers a substantial region, and the borders stay clear.
    let covered = count_not(&s, clear);
    assert!(5000 < covered && covered < 100000, "covered {covered}");
    for x in 0..640 {
        assert_eq!(s.pixels[x], clear);
        assert_eq!(s.pixels[479 * 640 + x], clear);
    }
    for y in 0..480 {
        assert_eq!(s.pixels[y * 640], clear);
        assert_eq!(s.pixels[y * 640 + 639], clear);
    }

    // Every covered depth sits in the quad's camera-space range.
    for i in 0..640 * 480 {
        if s.pixels[i] != clear {
            let d = s.depth_buffer[i].raw as f64 / FX_SCALE as f64;
            assert!(9.0 < d && d < 14.0, "depth {d} at {i}");
        }
    }
}

#[test]
fn draw_list_batches_in_order() {
    let mut dl = DrawList::new();
    let c = Color::new(1, 1, 1, 255);
    let t1 = Triangle::new(
        vert(0.0, 0.0, 0.0, c),
        vert(1.0, 0.0, 0.0, c),
        vert(0.0, 1.0, 0.0, c),
    );
    let t2 = Triangle::new(
        vert(2.0, 0.0, 0.0, c),
        vert(3.0, 0.0, 0.0, c),
        vert(2.0, 1.0, 0.0, c),
    );
    dl.add(&vec![t1, t2]);
    dl.add(&vec![t1]);
    assert_eq!(dl.triangles.len(), 3);
    assert_eq!(dl.triangles[0], t1);
    assert_eq!(dl.triangles[1], t2);
    assert_eq!(dl.triangles[2], t1);
}
