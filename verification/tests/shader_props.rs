use softraster::color::Color;
use softraster::dither_shader::DitherShader;
use softraster::dummy_passthru_shader::DummyPassthruShader;
use softraster::even_line_missing_shader::EvenLineMissingShader;
use softraster::everything_is_red_shader::EverythingIsRedShader;
use softraster::fixed::{Fx, FX_SCALE};
use softraster::pixel_placement::PixelPlacement;
use softraster::pixel_shader::{
    DepthFogShader, PixelShader, ShaderKind, SuperShader, TexturedRainbowShader,
};
use softraster::triangle::Triangle;
use softraster::vec2::Vector2;
use softraster::vec3::Vector3;
use softraster::vertex::Vertex;

fn fxf(v: f64) -> Fx {
    Fx { raw: (v * FX_SCALE as f64) as i64 }
}

fn some_triangle() -> Triangle {
    let c = Color::new(9, 9, 9, 255);
    let vert = |x: f64, y: f64| {
        Vertex::new(
            &Vector3 { x: fxf(x), y: fxf(y), z: fxf(1.0) },
            &Vector2 { x: fxf(0.0), y: fxf(0.0) },
            &c,
        )
    };
    Triangle::new(vert(0.0, 0.0), vert(20.0, 0.0), vert(0.0, 20.0))
}

fn placement(x: usize, y: usize, color: Color, depth: f64) -> PixelPlacement {
    PixelPlacement { x, y, color, depth: fxf(depth) }
}

#[test]
fn passthru_changes_nothing() {
    let t = some_triangle();
    let mut pp = placement(3, 4, Color::new(10, 20, 30, 40), 2.0);
    let before = pp;
    DummyPassthruShader.process(&mut pp, &t);
    assert_eq!(pp, before);
}

#[test]
fn red_shader_overrides_everything() {
    let t = some_triangle();
    let mut pp = placement(3, 4, Color::new(10, 20, 30, 0), 2.0);
    EverythingIsRedShader.process(&mut pp, &t);
    assert_eq!(pp.color, Color::new(255, 0, 0, 255));
    assert_eq!(pp.x, 3);
    assert_eq!(pp.depth, fxf(2.0));
}

#[test]
fn dither_drops_odd_odd_pixels() {
    let t = some_triangle();
    let c = Color::new(1, 2, 3, 200);
    for (x, y, dropped) in [(1, 1, true), (2, 1, false), (1, 2, false), (2, 2, false)] {
        let mut pp = placement(x, y, c, 2.0);
        DitherShader.process(&mut pp, &t);
        assert_eq!(pp.color.a == 0, dropped, "at ({x}, {y})");
        assert_eq!(pp.color.r, 1);
    }
}

#[test]
fn even_lines_go_missing() {
    let t = some_triangle();
    let c = Color::new(1, 2, 3, 200);
    let mut even = placement(5, 4, c, 2.0);
    EvenLineMissingShader.process(&mut even, &t);
    assert_eq!(even.color.a, 0);
    let mut odd = placement(5, 5, c, 2.0);
    EvenLineMissingShader.process(&mut odd, &t);
    assert_eq!(odd.color.a, 200);
}

#[test]
fn chain_of_two_equals_manual_composition() {
    // The composition primitive applied to [A, B] must equal running A then
    // B by hand on the same starting placement.
    let t = some_triangle();
    let chain = SuperShader::new(vec![
        ShaderKind::EvenLineMissing(EvenLineMissingShader),
        ShaderKind::Dither(DitherShader),
    ]);
    for (x, y) in [(0, 0), (1, 1), (2, 3), (3, 2), (7, 7)] {
        let start = placement(x, y, Color::new(50, 60, 70, 255), 3.0);
        let mut chained = start;
        chain.process(&mut chained, &t);
        let mut manual = start;
        EvenLineMissingShader.process(&mut manual, &t);
        DitherShader.process(&mut manual, &t);
        assert_eq!(chained, manual, "at ({x}, {y})");
    }
}

#[test]
fn chain_does_not_short_circuit() {
    // The first shader zeroes the alpha; the second still runs and may
    // resurrect the pixel.
    let t = some_triangle();
    let chain = SuperShader::new(vec![
        ShaderKind::EvenLineMissing(EvenLineMissingShader),
        ShaderKind::Red(EverythingIsRedShader),
    ]);
    let mut pp = placement(4, 4, Color::new(5, 5, 5, 255), 3.0);
    chain.process(&mut pp, &t);
    assert_eq!(pp.color, Color::new(255, 0, 0, 255));
}

#[test]
fn fog_at_start_is_identity() {
    let t = some_triangle();
    let fog = DepthFogShader::new(Color::new(255, 255, 255, 80), fxf(12.0), fxf(17.0));
    let mut pp = placement(0, 0, Color::new(128, 128, 0, 255), 12.0);
    let before = pp;
    fog.process(&mut pp, &t);
    assert_eq!(pp, before);
    // Below the start the factor clamps to zero as well.
    let mut near = placement(0, 0, Color::new(128, 128, 0, 255), 2.0);
    let before_near = near;
    fog.process(&mut near, &t);
    assert_eq!(near, before_near);
}

#[test]
fn fog_at_end_paints_the_fog_color() {
    let t = some_triangle();
    let fog_color = Color::new(255, 255, 255, 80);
    let fog = DepthFogShader::new(fog_color, fxf(12.0), fxf(17.0));
    let mut at_end = placement(0, 0, Color::new(128, 128, 0, 255), 17.0);
    fog.process(&mut at_end, &t);
    assert_eq!(at_end.color, fog_color);
    let mut beyond = placement(0, 0, Color::new(1, 2, 3, 200), 40.0);
    fog.process(&mut beyond, &t);
    assert_eq!(beyond.color, fog_color);
    assert_eq!(beyond.depth, fxf(40.0));
}

#[test]
fn fog_midway_blends_linearly() {
    // Halfway between start and end: factor one half, each channel the
    // truncated average.
    let t = some_triangle();
    let fog = DepthFogShader::new(Color::new(255, 255, 255, 80), fxf(12.0), fxf(17.0));
    let mut pp = placement(0, 0, Color::new(128, 0, 255, 255), 14.5);
    fog.process(&mut pp, &t);
    assert_eq!(pp.color.r, 191);
    assert_eq!(pp.color.g, 127);
    assert_eq!(pp.color.b, 255);
    assert_eq!(pp.color.a, 167);
}

#[test]
fn fog_skips_transparent_pixels() {
    let t = some_triangle();
    let fog = DepthFogShader::new(Color::new(255, 255, 255, 80), fxf(12.0), fxf(17.0));
    let mut pp = placement(0, 0, Color::new(7, 8, 9, 0), 40.0);
    let before = pp;
    fog.process(&mut pp, &t);
    assert_eq!(pp, before);
}

#[test]
fn rainbow_preserves_alpha_and_skips_transparent() {
    let t = some_triangle();
    let shader = TexturedRainbowShader::new(fxf(5.0));
    let mut inside = placement(4, 4, Color::new(1, 2, 3, 99), 2.0);
    shader.process(&mut inside, &t);
    assert_eq!(inside.color.a, 99);
    let mut transparent = placement(4, 4, Color::new(1, 2, 3, 0), 2.0);
    let before = transparent;
    shader.process(&mut transparent, &t);
    assert_eq!(transparent, before);
}

#[test]
fn rainbow_walks_the_wheel_with_time() {
    // Advancing the time moves the hue: the color at the same pixel changes.
    let t = some_triangle();
    let s0 = TexturedRainbowShader::new(fxf(5.0));
    let mut s1 = TexturedRainbowShader::new(fxf(5.0));
    s1.time = fxf(0.05);
    let start = placement(4, 4, Color::new(1, 2, 3, 255), 2.0);
    let mut a = start;
    s0.process(&mut a, &t);
    let mut b = start;
    s1.process(&mut b, &t);
    assert_ne!(a.color, b.color);
}
