//! The render target: a pixel buffer and a depth buffer, with the depth test,
//! the shader chain and the mandatory fog pass run on every written pixel.

use crate::color::Color;
use crate::fixed::Fx;
use crate::pixel_placement::PixelPlacement;
use crate::pixel_shader::{DepthFogShader, PixelShader};
use crate::triangle::Triangle;
use vstd::prelude::*;

verus! {

pub const SCREEN_WIDTH: usize = 640;

pub const SCREEN_HEIGHT: usize = 480;

/// The raw depth value a cleared buffer holds: farther than every
/// representable depth, so the first write at a pixel always passes the test.
pub const DEPTH_INFINITY_RAW: i64 = i64::MAX;

/// The mathematical content of a [`Screen`]: its size, its two buffers and
/// its fog pass.
#[verifier::ext_equal]
pub ghost struct ScreenView {
    pub width: int,
    pub height: int,
    pub pixels: Seq<Color>,
    pub depths: Seq<Fx>,
    pub fog: DepthFogShader,
}

impl ScreenView {
    /// Both buffers hold exactly one entry per pixel.
    pub open spec fn wf(self) -> bool {
        &&& self.width >= 0
        &&& self.height >= 0
        &&& self.pixels.len() == self.width * self.height
        &&& self.depths.len() == self.width * self.height
    }

    /// The buffer index of the pixel at `(x, y)`: row-major, origin top-left.
    pub open spec fn spec_idx(self, x: int, y: int) -> int {
        y * self.width + x
    }

    /// The placement after the caller's shader and the screen's fog pass.
    pub open spec fn spec_shaded<S: PixelShader>(
        self,
        pp: PixelPlacement,
        shader: S,
        triangle: Triangle,
    ) -> PixelPlacement {
        self.fog.spec_process(shader.spec_process(pp, triangle), triangle)
    }

    /// Whether a placement survives the whole gauntlet: not behind the
    /// camera, strictly closer than the stored depth, and still carrying
    /// alpha after the shader chain and the fog pass.
    pub open spec fn spec_commits<S: PixelShader>(
        self,
        pp: PixelPlacement,
        shader: S,
        triangle: Triangle,
    ) -> bool {
        &&& pp.depth.raw >= 0
        &&& pp.depth.raw < self.depths[self.spec_idx(pp.x as int, pp.y as int)].raw
        &&& self.spec_shaded(pp, shader, triangle).color.a > 0
    }

    /// The screen after one placement is offered to it: on a commit, the
    /// pixel and its depth entry take the shaded color and depth; otherwise
    /// nothing changes.
    pub open spec fn spec_draw_pixel<S: PixelShader>(
        self,
        pp: PixelPlacement,
        shader: S,
        triangle: Triangle,
    ) -> ScreenView {
        if self.spec_commits(pp, shader, triangle) {
            ScreenView {
                pixels: self.pixels.update(
                    self.spec_idx(pp.x as int, pp.y as int),
                    self.spec_shaded(pp, shader, triangle).color,
                ),
                depths: self.depths.update(
                    self.spec_idx(pp.x as int, pp.y as int),
                    self.spec_shaded(pp, shader, triangle).depth,
                ),
                ..self
            }
        } else {
            self
        }
    }

    /// The screen with every pixel set to `c` and every depth entry at the
    /// infinity sentinel.
    pub open spec fn spec_cleared(self, c: Color) -> ScreenView {
        ScreenView {
            pixels: Seq::new(self.pixels.len(), |i: int| c),
            depths: Seq::new(self.depths.len(), |i: int| Fx { raw: DEPTH_INFINITY_RAW }),
            ..self
        }
    }
}

pub struct Screen {
    pub width: usize,
    pub height: usize,
    pub pixels: Vec<Color>,
    pub depth_buffer: Vec<Fx>,
    pub fog_shader: DepthFogShader,
}

impl View for Screen {
    type V = ScreenView;

    open spec fn view(&self) -> ScreenView {
        ScreenView {
            width: self.width as int,
            height: self.height as int,
            pixels: self.pixels@,
            depths: self.depth_buffer@,
            fog: self.fog_shader,
        }
    }
}

impl Screen {
    /// Both buffers hold exactly one entry per pixel.
    pub open spec fn wf(self) -> bool {
        self@.wf()
    }

    /// A fresh screen: black opaque pixels, an empty depth buffer, and the
    /// standard fog of this renderer (white at alpha 80 between depths 12
    /// and 17).
    pub fn new(width: usize, height: usize) -> (s: Screen)
        requires
            width * height <= usize::MAX,
        ensures
            s.wf(),
            s.width == width,
            s.height == height,
            forall|i: int| 0 <= i < s@.pixels.len() ==> s@.pixels[i] == (Color { r: 0, g: 0, b: 0, a: 255 }),
            forall|i: int| 0 <= i < s@.depths.len() ==> s@.depths[i].raw == DEPTH_INFINITY_RAW,
            s.fog_shader == (DepthFogShader {
                fog_color: Color { r: 255, g: 255, b: 255, a: 80 },
                fog_start: Fx { raw: 786432 },
                fog_end: Fx { raw: 1114112 },
            }),
    {
        proof {
            assert((width * height) as usize as int == width * height);
        }
        let count: usize = width * height;
        let pixels = make_filled(Color { r: 0, g: 0, b: 0, a: 255 }, count);
        let depth_buffer = make_filled(Fx { raw: DEPTH_INFINITY_RAW }, count);
        Screen {
            width,
            height,
            pixels,
            depth_buffer,
            fog_shader: DepthFogShader {
                fog_color: Color { r: 255, g: 255, b: 255, a: 80 },
                fog_start: Fx { raw: 786432 },
                fog_end: Fx { raw: 1114112 },
            },
        }
    }

    /// Reset every pixel to the clear color and every depth entry to the
    /// infinity sentinel.
    pub fn clear(&mut self, clear_color: &Color)
        requires
            old(self).wf(),
        ensures
            final(self).wf(),
            final(self)@ == old(self)@.spec_cleared(*clear_color),
    {
        let count = self.pixels.len();
        let mut i: usize = 0;
        while i < count
            invariant
                i <= count,
                self.wf(),
                self.width == old(self).width,
                self.height == old(self).height,
                self.fog_shader == old(self).fog_shader,
                self.depth_buffer@ == old(self).depth_buffer@,
                count == self.pixels@.len(),
                count == old(self).pixels@.len(),
                forall|j: int| 0 <= j < i ==> self.pixels@[j] == *clear_color,
            decreases count - i,
        {
            self.pixels[i] = *clear_color;
            i += 1;
        }
        let dcount = self.depth_buffer.len();
        let mut k: usize = 0;
        while k < dcount
            invariant
                k <= dcount,
                self.wf(),
                self.width == old(self).width,
                self.height == old(self).height,
                self.fog_shader == old(self).fog_shader,
                dcount == self.depth_buffer@.len(),
                self.pixels@.len() == old(self).pixels@.len(),
                forall|j: int| 0 <= j < self.pixels@.len() ==> self.pixels@[j] == *clear_color,
                forall|j: int| 0 <= j < k ==> self.depth_buffer@[j].raw == DEPTH_INFINITY_RAW,
            decreases dcount - k,
        {
            self.depth_buffer[k] = Fx { raw: DEPTH_INFINITY_RAW };
            k += 1;
        }
        proof {
            assert(self.pixels@ =~= old(self)@.spec_cleared(*clear_color).pixels);
            assert(self.depth_buffer@ =~= old(self)@.spec_cleared(*clear_color).depths);
        }
    }

    /// Offer one placement to the screen: reject it behind the camera or at
    /// or beyond the stored depth; otherwise run the caller's shader, then
    /// the screen's fog, and commit color and depth only if alpha survived.
    pub fn draw_pixel<S: PixelShader>(
        &mut self,
        pp: &PixelPlacement,
        shader: &S,
        triangle: &Triangle,
    )
        requires
            old(self).wf(),
            pp.x < old(self).width,
            pp.y < old(self).height,
        ensures
            final(self).wf(),
            final(self)@ == old(self)@.spec_draw_pixel(*pp, *shader, *triangle),
    {
        if pp.depth.raw < 0 {
            return ;
        }
        proof {
            lemma_row_major_bound(pp.x as int, pp.y as int, self.width as int, self.height as int);
            vstd::std_specs::vec::axiom_spec_len(&self.pixels);
        }
        let idx: usize = pp.y * self.width + pp.x;
        let pixel_depth = self.depth_buffer[idx];
        if pp.depth.raw < pixel_depth.raw {
            let mut p2 = *pp;
            shader.process(&mut p2, triangle);
            self.fog_shader.process(&mut p2, triangle);
            if p2.color.a > 0 {
                self.pixels[idx] = p2.color;
                self.depth_buffer[idx] = p2.depth;
            }
        }
    }
}

impl Screen {
    /// Project one world-space triangle through the camera and rasterize it
    /// onto this screen.
    pub fn draw_triangle<S: PixelShader>(
        &mut self,
        tri: &Triangle,
        cam: &crate::camera::Camera,
        shader: &S,
    )
        requires
            old(self).wf(),
        ensures
            final(self).wf(),
            final(self)@ == tri.spec_project_and_fill(old(self)@, *cam, *shader),
    {
        tri.project_and_fill(self, cam, shader);
    }
}

/// Two placements at the same pixel, drawn through a depth-preserving
/// shader pass in either order, leave the same screen: the strictly closer
/// one wins, whatever came first.
pub proof fn lemma_draw_pixel_order<S: PixelShader>(
    sv: ScreenView,
    p1: PixelPlacement,
    p2: PixelPlacement,
    shader: S,
    triangle: Triangle,
)
    requires
        sv.wf(),
        p1.x == p2.x,
        p1.y == p2.y,
        (p1.x as int) < sv.width,
        (p1.y as int) < sv.height,
        p1.depth.raw >= 0,
        p2.depth.raw >= 0,
        p1.depth.raw < p2.depth.raw,
        p1.depth.raw < sv.depths[sv.spec_idx(p1.x as int, p1.y as int)].raw,
        p2.depth.raw < sv.depths[sv.spec_idx(p2.x as int, p2.y as int)].raw,
        sv.spec_shaded(p1, shader, triangle).color.a > 0,
        sv.spec_shaded(p2, shader, triangle).color.a > 0,
        sv.spec_shaded(p1, shader, triangle).depth == p1.depth,
        sv.spec_shaded(p2, shader, triangle).depth == p2.depth,
    ensures
        sv.spec_draw_pixel(p1, shader, triangle).spec_draw_pixel(p2, shader, triangle)
            == sv.spec_draw_pixel(p2, shader, triangle).spec_draw_pixel(p1, shader, triangle),
        sv.spec_draw_pixel(p1, shader, triangle).spec_draw_pixel(p2, shader, triangle).pixels[
            sv.spec_idx(p1.x as int, p1.y as int)] == sv.spec_shaded(p1, shader, triangle).color,
{
    let idx = sv.spec_idx(p1.x as int, p1.y as int);
    lemma_row_major_bound(p1.x as int, p1.y as int, sv.width, sv.height);
    let after1 = sv.spec_draw_pixel(p1, shader, triangle);
    let after2 = sv.spec_draw_pixel(p2, shader, triangle);
    assert(after1.depths[idx] == p1.depth);
    assert(after2.depths[idx] == p2.depth);
    assert(!after1.spec_commits(p2, shader, triangle));
    assert(after2.spec_commits(p1, shader, triangle));
    assert(after1.spec_draw_pixel(p2, shader, triangle) =~~= after2.spec_draw_pixel(
        p1,
        shader,
        triangle,
    ));
}

/// Drawing the same placement twice leaves what the first draw left: a
/// depth tie is rejected, not overwritten.
pub proof fn lemma_draw_pixel_tie<S: PixelShader>(
    sv: ScreenView,
    p: PixelPlacement,
    shader: S,
    triangle: Triangle,
)
    requires
        sv.wf(),
        (p.x as int) < sv.width,
        (p.y as int) < sv.height,
        sv.spec_shaded(p, shader, triangle).depth == p.depth,
    ensures
        sv.spec_draw_pixel(p, shader, triangle).spec_draw_pixel(p, shader, triangle)
            == sv.spec_draw_pixel(p, shader, triangle),
{
    let idx = sv.spec_idx(p.x as int, p.y as int);
    lemma_row_major_bound(p.x as int, p.y as int, sv.width, sv.height);
    let after = sv.spec_draw_pixel(p, shader, triangle);
    if sv.spec_commits(p, shader, triangle) {
        assert(after.depths[idx] == p.depth);
        assert(!after.spec_commits(p, shader, triangle));
    } else {
        assert(after == sv);
    }
}

/// A row-major index stays inside a `width * height` buffer.
pub proof fn lemma_row_major_bound(x: int, y: int, width: int, height: int)
    requires
        0 <= x < width,
        0 <= y < height,
    ensures
        0 <= y * width + x < width * height,
{
    assert(0 <= y * width + x < width * height) by (nonlinear_arith)
        requires
            0 <= x < width,
            0 <= y < height,
    ;
}

/// A vector of `count` copies of one value.
fn make_filled<T: Copy>(value: T, count: usize) -> (v: Vec<T>)
    ensures
        v@.len() == count,
        forall|i: int| 0 <= i < count ==> v@[i] == value,
{
    let mut v: Vec<T> = Vec::new();
    while v.len() < count
        invariant
            v@.len() <= count,
            forall|i: int| 0 <= i < v@.len() ==> v@[i] == value,
        decreases count - v@.len(),
    {
        v.push(value);
    }
    v
}

} // verus!
