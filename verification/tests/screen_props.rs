use softraster::color::Color;
use softraster::dummy_passthru_shader::DummyPassthruShader;
use softraster::fixed::{Fx, FX_SCALE};
use softraster::pixel_placement::PixelPlacement;
use softraster::screen::{Screen, DEPTH_INFINITY_RAW};
use softraster::triangle::Triangle;
use softraster::vec2::Vector2;
use softraster::vec3::Vector3;
use softraster::vertex::Vertex;

fn fxf(v: f64) -> Fx {
    Fx { raw: (v * FX_SCALE as f64) as i64 }
}

fn some_triangle() -> Triangle {
    let c = Color::new(9, 9, 9, 255);
    let vert = |x: f64, y: f64| {
        Vertex::new(
            &Vector3 { x: fxf(x), y: fxf(y), z: fxf(1.0) },
            &Vector2 { x: fxf(0.0), y: fxf(0.0) },
            &c,
        )
    };
    Triangle::new(vert(0.0, 0.0), vert(20.0, 0.0), vert(0.0, 20.0))
}

fn placement(x: usize, y: usize, color: Color, depth: f64) -> PixelPlacement {
    PixelPlacement { x, y, color, depth: fxf(depth) }
}

#[test]
fn new_screen_is_black_and_bottomless() {
    let s = Screen::new(8, 6);
    assert_eq!(s.width, 8);
    assert_eq!(s.height, 6);
    assert_eq!(s.pixels.len(), 48);
    assert_eq!(s.depth_buffer.len(), 48);
    for c in s.pixels.iter() {
        assert_eq!(*c, Color::new(0, 0, 0, 255));
    }
    for d in s.depth_buffer.iter() {
        assert_eq!(d.raw, DEPTH_INFINITY_RAW);
    }
}

#[test]
fn clear_resets_every_pixel_and_depth() {
    let mut s = Screen::new(8, 6);
    let sh = DummyPassthruShader;
    let t = some_triangle();
    s.draw_pixel(&placement(2, 3, Color::new(50, 60, 70, 255), 2.0), &sh, &t);
    let c = Color::new(11, 22, 33, 44);
    s.clear(&c);
    for p in s.pixels.iter() {
        assert_eq!(*p, c);
    }
    for d in s.depth_buffer.iter() {
        assert_eq!(d.raw, DEPTH_INFINITY_RAW);
    }
}

#[test]
fn draw_pixel_commits_close_and_rejects_far() {
    let mut s = Screen::new(8, 6);
    let sh = DummyPassthruShader;
    let t = some_triangle();
    let red = Color::new(200, 0, 0, 255);
    let blue = Color::new(0, 0, 200, 255);
    // Depth 2 is nowhere near the fog, so the committed color is exact.
    s.draw_pixel(&placement(2, 3, red, 2.0), &sh, &t);
    assert_eq!(s.pixels[3 * 8 + 2], red);
    assert_eq!(s.depth_buffer[3 * 8 + 2], fxf(2.0));
    // A farther write at the same pixel is rejected.
    s.draw_pixel(&placement(2, 3, blue, 5.0), &sh, &t);
    assert_eq!(s.pixels[3 * 8 + 2], red);
    assert_eq!(s.depth_buffer[3 * 8 + 2], fxf(2.0));
    // A strictly closer write wins.
    s.draw_pixel(&placement(2, 3, blue, 1.0), &sh, &t);
    assert_eq!(s.pixels[3 * 8 + 2], blue);
    assert_eq!(s.depth_buffer[3 * 8 + 2], fxf(1.0));
}

#[test]
fn draw_order_does_not_matter() {
    // Two overlapping placements at one pixel: whichever is drawn first,
    // the closer one ends up in the buffers.
    let sh = DummyPassthruShader;
    let t = some_triangle();
    let near = placement(1, 1, Color::new(10, 0, 0, 255), 2.0);
    let far = placement(1, 1, Color::new(0, 10, 0, 255), 3.0);
    let mut ab = Screen::new(4, 4);
    ab.draw_pixel(&near, &sh, &t);
    ab.draw_pixel(&far, &sh, &t);
    let mut ba = Screen::new(4, 4);
    ba.draw_pixel(&far, &sh, &t);
    ba.draw_pixel(&near, &sh, &t);
    for i in 0..16 {
        assert_eq!(ab.pixels[i], ba.pixels[i]);
        assert_eq!(ab.depth_buffer[i], ba.depth_buffer[i]);
    }
    assert_eq!(ab.pixels[1 * 4 + 1], Color::new(10, 0, 0, 255));
}

#[test]
fn equal_depth_keeps_the_first_write() {
    // A tie is not strictly closer: the second write is rejected.
    let sh = DummyPassthruShader;
    let t = some_triangle();
    let first = placement(1, 1, Color::new(10, 0, 0, 255), 2.0);
    let second = placement(1, 1, Color::new(0, 10, 0, 255), 2.0);
    let mut s = Screen::new(4, 4);
    s.draw_pixel(&first, &sh, &t);
    s.draw_pixel(&second, &sh, &t);
    assert_eq!(s.pixels[1 * 4 + 1], Color::new(10, 0, 0, 255));
}

#[test]
fn negative_depth_is_rejected() {
    let sh = DummyPassthruShader;
    let t = some_triangle();
    let mut s = Screen::new(4, 4);
    s.draw_pixel(&placement(1, 1, Color::new(10, 0, 0, 255), -1.0), &sh, &t);
    assert_eq!(s.pixels[1 * 4 + 1], Color::new(0, 0, 0, 255));
    assert_eq!(s.depth_buffer[1 * 4 + 1].raw, DEPTH_INFINITY_RAW);
}

#[test]
fn zero_alpha_after_shading_discards_the_write() {
    // The even-line shader zeroes alpha on even rows; the fog cannot
    // resurrect an already transparent pixel, so both buffers stay put.
    let sh = softraster::even_line_missing_shader::EvenLineMissingShader;
    let t = some_triangle();
    let mut s = Screen::new(4, 4);
    s.draw_pixel(&placement(1, 2, Color::new(10, 0, 0, 255), 2.0), &sh, &t);
    assert_eq!(s.pixels[2 * 4 + 1], Color::new(0, 0, 0, 255));
    assert_eq!(s.depth_buffer[2 * 4 + 1].raw, DEPTH_INFINITY_RAW);
    // On an odd row the same write lands.
    s.draw_pixel(&placement(1, 3, Color::new(10, 0, 0, 255), 2.0), &sh, &t);
    assert_eq!(s.pixels[3 * 4 + 1], Color::new(10, 0, 0, 255));
}

#[test]
fn empty_screen_survives_the_pipeline() {
    // A zero-sized screen has no pixels; clearing and filling it do nothing
    // and touch nothing out of range.
    let mut s = Screen::new(0, 0);
    assert_eq!(s.pixels.len(), 0);
    s.clear(&Color::new(1, 2, 3, 4));
    let t = some_triangle();
    t.fill(&mut s, &DummyPassthruShader);
    assert_eq!(s.pixels.len(), 0);
    let mut row = Screen::new(4, 0);
    t.fill(&mut row, &DummyPassthruShader);
    assert_eq!(row.pixels.len(), 0);
}

#[test]
fn one_pixel_screen_takes_a_covering_fill() {
    // A triangle spanning the single pixel's center lands exactly one write.
    let mut s = Screen::new(1, 1);
    let t = some_triangle();
    t.fill(&mut s, &DummyPassthruShader);
    assert_eq!(s.pixels.len(), 1);
    assert_ne!(s.depth_buffer[0].raw, DEPTH_INFINITY_RAW);
}

#[test]
fn fog_applies_to_every_draw() {
    // The screen's own fog pass runs after the caller's shader: a pixel at
    // the fog's far end comes out in the fog color, not the placement's.
    let sh = DummyPassthruShader;
    let t = some_triangle();
    let mut s = Screen::new(4, 4);
    s.draw_pixel(&placement(0, 0, Color::new(10, 20, 30, 255), 30.0), &sh, &t);
    assert_eq!(s.pixels[0], Color::new(255, 255, 255, 80));
    assert_eq!(s.depth_buffer[0], fxf(30.0));
}
