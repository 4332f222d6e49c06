//! Screen-space and world-space triangles: barycentric coordinates, attribute
//! interpolation and rasterization.

use crate::camera::Camera;
use crate::color::Color;
use crate::fixed::{
    fx, fx_add, fx_ceil, fx_div, fx_floor, fx_mul, fx_sub, lemma_tdiv_magnitude, tdiv, Fx,
    FX_SCALE,
};
use crate::pixel_placement::PixelPlacement;
use crate::pixel_shader::PixelShader;
use crate::screen::{Screen, ScreenView};
use crate::trig::spec_tan_deg;
use crate::vec3::Vector3;
use crate::vertex::Vertex;
use vstd::prelude::*;

verus! {

/// The near clipping depth (0.01) in raw units: a vertex closer than this
/// along the view axis discards its whole triangle.
pub const NEAR_RAW: i64 = 655;

/// The far clipping depth (60) in raw units.
pub const FAR_RAW: i64 = 3932160;

pub open spec fn imin(a: int, b: int) -> int {
    if a <= b {
        a
    } else {
        b
    }
}

pub open spec fn imax(a: int, b: int) -> int {
    if a >= b {
        a
    } else {
        b
    }
}

/// Clamp a coordinate into `[0, limit - 1]`, as the rasterizer clamps its
/// bounding box to the screen.
pub open spec fn clamp_idx(v: int, limit: int) -> int {
    if v < 0 {
        0
    } else if v >= limit {
        limit - 1
    } else {
        v
    }
}

/// The raw coordinate of a pixel's sampling center: the pixel index plus one
/// half.  Indexes are taken at 64-bit precision.
pub open spec fn spec_px_center(v: int) -> int {
    fx_add(Fx::spec_from_int(v as i64 as int), 32768)
}

#[derive(Clone, Copy, Debug, PartialEq, Eq, Structural)]
pub struct Triangle {
    pub v1: Vertex,
    pub v2: Vertex,
    pub v3: Vertex,
}

/// Clamp an integer into the 8-bit range, as a float-to-`u8` cast would.
pub open spec fn clamp_u8(x: int) -> int {
    if x < 0 {
        0
    } else if x > 255 {
        255
    } else {
        x
    }
}

/// One channel interpolated across the three vertices by raw barycentric
/// weights, truncated and clamped into the 8-bit range.
pub open spec fn interp_channel(c1: int, c2: int, c3: int, a: int, b: int, g: int) -> int {
    clamp_u8(tdiv(c1 * a + c2 * b + c3 * g, FX_SCALE as int))
}

impl Triangle {
    /// The denominator of the barycentric system: the Gram determinant of the
    /// two edge vectors out of vertex 1, in the saturating fixed arithmetic.
    pub open spec fn spec_bary_denom(self) -> int {
        let v0x = fx_sub(self.v2.pos.x.raw as int, self.v1.pos.x.raw as int);
        let v0y = fx_sub(self.v2.pos.y.raw as int, self.v1.pos.y.raw as int);
        let v1x = fx_sub(self.v3.pos.x.raw as int, self.v1.pos.x.raw as int);
        let v1y = fx_sub(self.v3.pos.y.raw as int, self.v1.pos.y.raw as int);
        let d00 = fx_add(fx_mul(v0x, v0x), fx_mul(v0y, v0y));
        let d01 = fx_add(fx_mul(v0x, v1x), fx_mul(v0y, v1y));
        let d11 = fx_add(fx_mul(v1x, v1x), fx_mul(v1y, v1y));
        fx_sub(fx_mul(d00, d11), fx_mul(d01, d01))
    }

    /// Barycentric coordinates of the point `(px, py)` with respect to this
    /// triangle's screen positions.  A degenerate triangle (zero denominator)
    /// yields `(-1, -1, -1)`, which no coverage test accepts — the fixed
    /// counterpart of the all-rejecting not-a-number coordinates a float
    /// division by zero would breed.
    pub open spec fn spec_barycentric(self, px: Fx, py: Fx) -> (Fx, Fx, Fx) {
        let v0x = fx_sub(self.v2.pos.x.raw as int, self.v1.pos.x.raw as int);
        let v0y = fx_sub(self.v2.pos.y.raw as int, self.v1.pos.y.raw as int);
        let v1x = fx_sub(self.v3.pos.x.raw as int, self.v1.pos.x.raw as int);
        let v1y = fx_sub(self.v3.pos.y.raw as int, self.v1.pos.y.raw as int);
        let v2x = fx_sub(px.raw as int, self.v1.pos.x.raw as int);
        let v2y = fx_sub(py.raw as int, self.v1.pos.y.raw as int);
        let d00 = fx_add(fx_mul(v0x, v0x), fx_mul(v0y, v0y));
        let d01 = fx_add(fx_mul(v0x, v1x), fx_mul(v0y, v1y));
        let d11 = fx_add(fx_mul(v1x, v1x), fx_mul(v1y, v1y));
        let d20 = fx_add(fx_mul(v2x, v0x), fx_mul(v2y, v0y));
        let d21 = fx_add(fx_mul(v2x, v1x), fx_mul(v2y, v1y));
        let denom = fx_sub(fx_mul(d00, d11), fx_mul(d01, d01));
        if denom == 0 {
            (fx(-FX_SCALE as int), fx(-FX_SCALE as int), fx(-FX_SCALE as int))
        } else {
            let beta = fx_div(fx_sub(fx_mul(d11, d20), fx_mul(d01, d21)), denom);
            let gamma = fx_div(fx_sub(fx_mul(d00, d21), fx_mul(d01, d20)), denom);
            let alpha = fx_sub(fx_sub(FX_SCALE as int, beta), gamma);
            (fx(alpha), fx(beta), fx(gamma))
        }
    }

    /// The vertex colors interpolated by the given barycentric weights; the
    /// base fill is always fully opaque, whatever the vertex alphas say.
    pub open spec fn spec_interpolate_color(self, a: Fx, b: Fx, g: Fx) -> Color {
        Color {
            r: interp_channel(
                self.v1.color.r as int,
                self.v2.color.r as int,
                self.v3.color.r as int,
                a.raw as int,
                b.raw as int,
                g.raw as int,
            ) as u8,
            g: interp_channel(
                self.v1.color.g as int,
                self.v2.color.g as int,
                self.v3.color.g as int,
                a.raw as int,
                b.raw as int,
                g.raw as int,
            ) as u8,
            b: interp_channel(
                self.v1.color.b as int,
                self.v2.color.b as int,
                self.v3.color.b as int,
                a.raw as int,
                b.raw as int,
                g.raw as int,
            ) as u8,
            a: 255,
        }
    }

    /// Camera-space depth interpolated by the given barycentric weights.
    pub open spec fn spec_interp_depth(self, a: Fx, b: Fx, g: Fx) -> Fx {
        fx(
            fx_add(
                fx_add(
                    fx_mul(a.raw as int, self.v1.pos.z.raw as int),
                    fx_mul(b.raw as int, self.v2.pos.z.raw as int),
                ),
                fx_mul(g.raw as int, self.v3.pos.z.raw as int),
            ),
        )
    }

    /// Leftmost bounding-box column on a screen `w` pixels wide.
    pub open spec fn spec_min_x(self, w: int) -> int {
        clamp_idx(
            fx_floor(
                imin(
                    imin(self.v1.pos.x.raw as int, self.v2.pos.x.raw as int),
                    self.v3.pos.x.raw as int,
                ),
            ),
            w,
        )
    }

    /// Rightmost bounding-box column on a screen `w` pixels wide.
    pub open spec fn spec_max_x(self, w: int) -> int {
        clamp_idx(
            fx_ceil(
                imax(
                    imax(self.v1.pos.x.raw as int, self.v2.pos.x.raw as int),
                    self.v3.pos.x.raw as int,
                ),
            ),
            w,
        )
    }

    /// Topmost bounding-box row on a screen `h` pixels tall.
    pub open spec fn spec_min_y(self, h: int) -> int {
        clamp_idx(
            fx_floor(
                imin(
                    imin(self.v1.pos.y.raw as int, self.v2.pos.y.raw as int),
                    self.v3.pos.y.raw as int,
                ),
            ),
            h,
        )
    }

    /// Bottom bounding-box row on a screen `h` pixels tall.
    pub open spec fn spec_max_y(self, h: int) -> int {
        clamp_idx(
            fx_ceil(
                imax(
                    imax(self.v1.pos.y.raw as int, self.v2.pos.y.raw as int),
                    self.v3.pos.y.raw as int,
                ),
            ),
            h,
        )
    }

    /// Whether the pixel `(x, y)` lies inside the clamped bounding box.
    pub open spec fn spec_in_bbox(self, x: int, y: int, w: int, h: int) -> bool {
        &&& self.spec_min_x(w) <= x <= self.spec_max_x(w)
        &&& self.spec_min_y(h) <= y <= self.spec_max_y(h)
    }

    /// Whether the pixel `(x, y)` is covered: all three barycentric
    /// coordinates of its center are non-negative.
    pub open spec fn spec_covered(self, x: int, y: int) -> bool {
        let c = self.spec_barycentric(fx(spec_px_center(x)), fx(spec_px_center(y)));
        c.0.raw >= 0 && c.1.raw >= 0 && c.2.raw >= 0
    }

    /// The placement the rasterizer builds for the covered pixel `(x, y)`.
    pub open spec fn spec_placement(self, x: int, y: int) -> PixelPlacement {
        let c = self.spec_barycentric(fx(spec_px_center(x)), fx(spec_px_center(y)));
        PixelPlacement {
            x: x as usize,
            y: y as usize,
            color: self.spec_interpolate_color(c.0, c.1, c.2),
            depth: self.spec_interp_depth(c.0, c.1, c.2),
        }
    }

    /// The color the pixel `(x, y)` of screen `sv` holds after this triangle
    /// is filled over it with `shader`.
    pub open spec fn spec_fill_color<S: PixelShader>(
        self,
        sv: ScreenView,
        x: int,
        y: int,
        shader: S,
    ) -> Color {
        if self.spec_in_bbox(x, y, sv.width, sv.height) && self.spec_covered(x, y)
            && sv.spec_commits(self.spec_placement(x, y), shader, self) {
            sv.spec_shaded(self.spec_placement(x, y), shader, self).color
        } else {
            sv.pixels[sv.spec_idx(x, y)]
        }
    }

    /// The depth entry of the pixel `(x, y)` of screen `sv` after this
    /// triangle is filled over it with `shader`.
    pub open spec fn spec_fill_depth<S: PixelShader>(
        self,
        sv: ScreenView,
        x: int,
        y: int,
        shader: S,
    ) -> Fx {
        if self.spec_in_bbox(x, y, sv.width, sv.height) && self.spec_covered(x, y)
            && sv.spec_commits(self.spec_placement(x, y), shader, self) {
            sv.spec_shaded(self.spec_placement(x, y), shader, self).depth
        } else {
            sv.depths[sv.spec_idx(x, y)]
        }
    }

    /// The whole screen after this triangle is filled over it: each pixel as
    /// [`Triangle::spec_fill_color`] and [`Triangle::spec_fill_depth`] say of
    /// its coordinates.
    pub open spec fn spec_fill<S: PixelShader>(self, sv: ScreenView, shader: S) -> ScreenView {
        ScreenView {
            pixels: Seq::new(
                sv.pixels.len(),
                |i: int| self.spec_fill_color(sv, i % sv.width, i / sv.width, shader),
            ),
            depths: Seq::new(
                sv.depths.len(),
                |i: int| self.spec_fill_depth(sv, i % sv.width, i / sv.width, shader),
            ),
            ..sv
        }
    }

    /// One vertex taken through the camera: the position relative to the
    /// camera is projected onto the view basis, culled against the near and
    /// far depths, divided by the perspective, and mapped to pixel
    /// coordinates with the vertical axis flipped.  The projected position's
    /// third component is the raw camera-space depth itself.
    pub open spec fn spec_project_vertex(cam: Camera, v: Vertex, w: int, h: int) -> Option<
        Vertex,
    > {
        let forward = cam.spec_direction();
        let right = Vector3::spec_normalize_v(
            Vector3::spec_cross(forward, Vector3 { x: fx(0), y: fx(FX_SCALE as int), z: fx(0) }),
        );
        let up = Vector3::spec_cross(right, forward);
        let relative = Vector3::spec_sub(v.pos, cam.pos);
        let cx = Vector3::spec_dot(relative, right);
        let cy = Vector3::spec_dot(relative, up);
        let cz = Vector3::spec_dot(relative, forward);
        if cz < NEAR_RAW as int || cz > FAR_RAW as int {
            None
        } else {
            let aspect = fx_div(
                Fx::spec_from_int(w as i64 as int),
                Fx::spec_from_int(h as i64 as int),
            );
            let tan_half = spec_tan_deg(fx_mul(cam.fov.raw as int, 32768));
            let ndc_x = fx_div(cx, fx_mul(tan_half, cz));
            let ndc_y = fx_div(cy, fx_div(fx_mul(tan_half, cz), aspect));
            let sx = fx_mul(
                fx_add(fx_mul(ndc_x, 32768), 32768),
                Fx::spec_from_int(w as i64 as int),
            );
            let sy = fx_mul(
                fx_sub(FX_SCALE as int, fx_add(fx_mul(ndc_y, 32768), 32768)),
                Fx::spec_from_int(h as i64 as int),
            );
            Some(
                Vertex {
                    pos: Vector3 { x: fx(sx), y: fx(sy), z: fx(cz) },
                    texture_coord: v.texture_coord,
                    color: v.color,
                },
            )
        }
    }

    /// The whole triangle taken through the camera: all three vertices must
    /// survive the near/far test, or the triangle is discarded whole — there
    /// is no clipping against the view planes.
    pub open spec fn spec_project(self, cam: Camera, w: int, h: int) -> Option<Triangle> {
        let p1 = Triangle::spec_project_vertex(cam, self.v1, w, h);
        let p2 = Triangle::spec_project_vertex(cam, self.v2, w, h);
        let p3 = Triangle::spec_project_vertex(cam, self.v3, w, h);
        if p1 is None || p2 is None || p3 is None {
            None
        } else {
            Some(Triangle { v1: p1->0, v2: p2->0, v3: p3->0 })
        }
    }

    /// The screen after this world-space triangle is projected and, if it
    /// survives the culling, rasterized.
    pub open spec fn spec_project_and_fill<S: PixelShader>(
        self,
        sv: ScreenView,
        cam: Camera,
        shader: S,
    ) -> ScreenView {
        match self.spec_project(cam, sv.width, sv.height) {
            Option::Some(pt) => pt.spec_fill(sv, shader),
            Option::None => sv,
        }
    }

    pub fn new(v1: Vertex, v2: Vertex, v3: Vertex) -> (t: Triangle)
        ensures
            t == (Triangle { v1, v2, v3 }),
    {
        Triangle { v1, v2, v3 }
    }

    /// Project this triangle through the camera to screen space, or discard
    /// it when any vertex leaves the near/far range.
    pub fn with_applied_perspective(
        &self,
        camera: &Camera,
        screen_width: usize,
        screen_height: usize,
    ) -> (r: Option<Triangle>)
        ensures
            r == self.spec_project(*camera, screen_width as int, screen_height as int),
    {
        let p1 = project_vertex(camera, &self.v1, screen_width, screen_height);
        let p2 = project_vertex(camera, &self.v2, screen_width, screen_height);
        let p3 = project_vertex(camera, &self.v3, screen_width, screen_height);
        if p1.is_none() || p2.is_none() || p3.is_none() {
            return None;
        }
        Some(Triangle { v1: p1.unwrap(), v2: p2.unwrap(), v3: p3.unwrap() })
    }

    /// Project this world-space triangle and rasterize it onto the screen,
    /// or leave the screen untouched when it is culled.
    pub fn project_and_fill<S: PixelShader>(
        &self,
        screen: &mut Screen,
        camera: &Camera,
        shader: &S,
    )
        requires
            old(screen).wf(),
        ensures
            final(screen).wf(),
            final(screen)@ == self.spec_project_and_fill(old(screen)@, *camera, *shader),
    {
        let projected_triangle = self.with_applied_perspective(camera, screen.width, screen.height);
        if let Some(triangle) = projected_triangle {
            triangle.fill(screen, shader);
        }
    }

    /// Rasterize this screen-space triangle onto the screen: every pixel of
    /// the clamped bounding box whose center carries non-negative barycentric
    /// coordinates is interpolated and offered to the screen's depth test,
    /// shader chain and fog pass.
    #[verifier::rlimit(100)]
    #[verifier::loop_isolation(false)]
    pub fn fill<S: PixelShader>(&self, screen: &mut Screen, shader: &S)
        requires
            old(screen).wf(),
        ensures
            final(screen).wf(),
            final(screen)@ == self.spec_fill(old(screen)@, *shader),
            forall|x: int, y: int|
                0 <= x < old(screen)@.width && 0 <= y < old(screen)@.height
                    ==> #[trigger] final(screen)@.pixels[old(screen)@.spec_idx(x, y)]
                    == self.spec_fill_color(old(screen)@, x, y, *shader),
            forall|x: int, y: int|
                0 <= x < old(screen)@.width && 0 <= y < old(screen)@.height
                    ==> #[trigger] final(screen)@.depths[old(screen)@.spec_idx(x, y)]
                    == self.spec_fill_depth(old(screen)@, x, y, *shader),
    {
        let w = screen.width;
        let h = screen.height;
        if w == 0 || h == 0 {
            proof {
                assert((w as int) * (h as int) == 0) by (nonlinear_arith)
                    requires
                        w as int == 0 || h as int == 0,
                ;
                assert(screen@.pixels =~= self.spec_fill(old(screen)@, *shader).pixels);
                assert(screen@.depths =~= self.spec_fill(old(screen)@, *shader).depths);
                assert(screen@ =~= self.spec_fill(old(screen)@, *shader));
            }
            return ;
        }
        let min_x = clamp_coord(
            self.v1.pos.x.min(self.v2.pos.x).min(self.v3.pos.x).floor_units(),
            w,
        );
        let max_x = clamp_coord(
            self.v1.pos.x.max(self.v2.pos.x).max(self.v3.pos.x).ceil_units(),
            w,
        );
        let min_y = clamp_coord(
            self.v1.pos.y.min(self.v2.pos.y).min(self.v3.pos.y).floor_units(),
            h,
        );
        let max_y = clamp_coord(
            self.v1.pos.y.max(self.v2.pos.y).max(self.v3.pos.y).ceil_units(),
            h,
        );
        proof {
            lemma_fx_floor_le_ceil(
                imin(
                    imin(self.v1.pos.x.raw as int, self.v2.pos.x.raw as int),
                    self.v3.pos.x.raw as int,
                ),
                imax(
                    imax(self.v1.pos.x.raw as int, self.v2.pos.x.raw as int),
                    self.v3.pos.x.raw as int,
                ),
            );
            lemma_fx_floor_le_ceil(
                imin(
                    imin(self.v1.pos.y.raw as int, self.v2.pos.y.raw as int),
                    self.v3.pos.y.raw as int,
                ),
                imax(
                    imax(self.v1.pos.y.raw as int, self.v2.pos.y.raw as int),
                    self.v3.pos.y.raw as int,
                ),
            );
            assert(min_x as int == self.spec_min_x(w as int));
            assert(max_x as int == self.spec_max_x(w as int));
            assert(min_y as int == self.spec_min_y(h as int));
            assert(max_y as int == self.spec_max_y(h as int));
            assert(min_x <= max_x && min_y <= max_y);
        }
        let mut y: usize = min_y;
        while y <= max_y
            invariant
                min_y <= y && y <= max_y + 1,
                screen.wf(),
                screen@.width == w,
                screen@.height == h,
                screen@.fog == old(screen)@.fog,
                screen@.pixels.len() == old(screen)@.pixels.len(),
                screen@.depths.len() == old(screen)@.depths.len(),
                forall|xx: int, yy: int|
                    0 <= xx < w && 0 <= yy < h
                        ==> #[trigger] screen@.pixels[old(screen)@.spec_idx(xx, yy)] == (
                        if yy < y && self.spec_in_bbox(xx, yy, w as int, h as int)
                            && self.spec_covered(xx, yy) && old(screen)@.spec_commits(
                            self.spec_placement(xx, yy),
                            *shader,
                            *self,
                        ) {
                            old(screen)@.spec_shaded(
                                self.spec_placement(xx, yy),
                                *shader,
                                *self,
                            ).color
                        } else {
                            old(screen)@.pixels[old(screen)@.spec_idx(xx, yy)]
                        }),
                forall|xx: int, yy: int|
                    0 <= xx < w && 0 <= yy < h
                        ==> #[trigger] screen@.depths[old(screen)@.spec_idx(xx, yy)] == (
                        if yy < y && self.spec_in_bbox(xx, yy, w as int, h as int)
                            && self.spec_covered(xx, yy) && old(screen)@.spec_commits(
                            self.spec_placement(xx, yy),
                            *shader,
                            *self,
                        ) {
                            old(screen)@.spec_shaded(
                                self.spec_placement(xx, yy),
                                *shader,
                                *self,
                            ).depth
                        } else {
                            old(screen)@.depths[old(screen)@.spec_idx(xx, yy)]
                        }),
            decreases max_y + 1 - y,
        {
            let mut x: usize = min_x;
            while x <= max_x
                invariant
                    min_x <= x && x <= max_x + 1,
                    y <= max_y,
                    screen.wf(),
                    screen@.width == w,
                    screen@.height == h,
                    screen@.fog == old(screen)@.fog,
                    screen@.pixels.len() == old(screen)@.pixels.len(),
                    screen@.depths.len() == old(screen)@.depths.len(),
                    forall|xx: int, yy: int|
                        0 <= xx < w && 0 <= yy < h
                            ==> #[trigger] screen@.pixels[old(screen)@.spec_idx(xx, yy)] == (
                            if (yy < y || (yy == y && xx < x)) && self.spec_in_bbox(
                                xx,
                                yy,
                                w as int,
                                h as int,
                            ) && self.spec_covered(xx, yy) && old(screen)@.spec_commits(
                                self.spec_placement(xx, yy),
                                *shader,
                                *self,
                            ) {
                                old(screen)@.spec_shaded(
                                    self.spec_placement(xx, yy),
                                    *shader,
                                    *self,
                                ).color
                            } else {
                                old(screen)@.pixels[old(screen)@.spec_idx(xx, yy)]
                            }),
                    forall|xx: int, yy: int|
                        0 <= xx < w && 0 <= yy < h
                            ==> #[trigger] screen@.depths[old(screen)@.spec_idx(xx, yy)] == (
                            if (yy < y || (yy == y && xx < x)) && self.spec_in_bbox(
                                xx,
                                yy,
                                w as int,
                                h as int,
                            ) && self.spec_covered(xx, yy) && old(screen)@.spec_commits(
                                self.spec_placement(xx, yy),
                                *shader,
                                *self,
                            ) {
                                old(screen)@.spec_shaded(
                                    self.spec_placement(xx, yy),
                                    *shader,
                                    *self,
                                ).depth
                            } else {
                                old(screen)@.depths[old(screen)@.spec_idx(xx, yy)]
                            }),
                decreases max_x + 1 - x,
            {
                let px = Fx::from_int(x as i64).add(Fx { raw: 32768 });
                let py = Fx::from_int(y as i64).add(Fx { raw: 32768 });
                let (alpha, beta, gamma) = self.barycentric_coords(px, py);
                proof {
                    assert(px == fx(spec_px_center(x as int)));
                    assert(py == fx(spec_px_center(y as int)));
                }
                if alpha.raw >= 0 && beta.raw >= 0 && gamma.raw >= 0 {
                    let depth = alpha.mul(self.v1.pos.z).add(beta.mul(self.v2.pos.z)).add(
                        gamma.mul(self.v3.pos.z),
                    );
                    let color = self.interpolate_color(alpha, beta, gamma);
                    let pixel = PixelPlacement { x, y, color, depth };
                    let ghost before = screen@;
                    proof {
                        assert(pixel == self.spec_placement(x as int, y as int));
                        assert(self.spec_covered(x as int, y as int));
                        assert(self.spec_in_bbox(x as int, y as int, w as int, h as int));
                        assert(before.depths[old(screen)@.spec_idx(x as int, y as int)] == old(
                            screen,
                        )@.depths[old(screen)@.spec_idx(x as int, y as int)]);
                    }
                    screen.draw_pixel(&pixel, shader, self);
                    proof {
                        assert(before.spec_commits(pixel, *shader, *self) == old(
                            screen,
                        )@.spec_commits(pixel, *shader, *self));
                        assert forall|xx: int, yy: int| 0 <= xx < w && 0 <= yy < h implies
                            #[trigger] screen@.pixels[old(screen)@.spec_idx(xx, yy)] == (
                            if (yy < y || (yy == y && xx < x + 1)) && self.spec_in_bbox(
                                xx,
                                yy,
                                w as int,
                                h as int,
                            ) && self.spec_covered(xx, yy) && old(screen)@.spec_commits(
                                self.spec_placement(xx, yy),
                                *shader,
                                *self,
                            ) {
                                old(screen)@.spec_shaded(
                                    self.spec_placement(xx, yy),
                                    *shader,
                                    *self,
                                ).color
                            } else {
                                old(screen)@.pixels[old(screen)@.spec_idx(xx, yy)]
                            }) by {
                            crate::screen::lemma_row_major_bound(xx, yy, w as int, h as int);
                            crate::screen::lemma_row_major_bound(
                                x as int,
                                y as int,
                                w as int,
                                h as int,
                            );
                            if xx != x as int || yy != y as int {
                                lemma_row_major_distinct(w as int, xx, yy, x as int, y as int);
                            }
                        }
                        assert forall|xx: int, yy: int| 0 <= xx < w && 0 <= yy < h implies
                            #[trigger] screen@.depths[old(screen)@.spec_idx(xx, yy)] == (
                            if (yy < y || (yy == y && xx < x + 1)) && self.spec_in_bbox(
                                xx,
                                yy,
                                w as int,
                                h as int,
                            ) && self.spec_covered(xx, yy) && old(screen)@.spec_commits(
                                self.spec_placement(xx, yy),
                                *shader,
                                *self,
                            ) {
                                old(screen)@.spec_shaded(
                                    self.spec_placement(xx, yy),
                                    *shader,
                                    *self,
                                ).depth
                            } else {
                                old(screen)@.depths[old(screen)@.spec_idx(xx, yy)]
                            }) by {
                            crate::screen::lemma_row_major_bound(xx, yy, w as int, h as int);
                            crate::screen::lemma_row_major_bound(
                                x as int,
                                y as int,
                                w as int,
                                h as int,
                            );
                            if xx != x as int || yy != y as int {
                                lemma_row_major_distinct(w as int, xx, yy, x as int, y as int);
                            }
                        }
                    }
                } else {
                    proof {
                        assert(!self.spec_covered(x as int, y as int));
                    }
                }
                x += 1;
            }
            y += 1;
        }
        proof {
            let target = self.spec_fill(old(screen)@, *shader);
            assert forall|i: int| 0 <= i < screen@.pixels.len() implies screen@.pixels[i]
                == target.pixels[i] by {
                vstd::arithmetic::div_mod::lemma_fundamental_div_mod(i, w as int);
                vstd::arithmetic::div_mod::lemma_mod_division_less_than_divisor(i, w as int);
                vstd::arithmetic::div_mod::lemma_div_pos_is_pos(i, w as int);
                vstd::arithmetic::div_mod::lemma_multiply_divide_lt(i, w as int, h as int);
                vstd::arithmetic::mul::lemma_mul_is_commutative(i / (w as int), w as int);
                assert(old(screen)@.spec_idx(i % (w as int), i / (w as int)) == i);
            }
            assert forall|i: int| 0 <= i < screen@.depths.len() implies screen@.depths[i]
                == target.depths[i] by {
                vstd::arithmetic::div_mod::lemma_fundamental_div_mod(i, w as int);
                vstd::arithmetic::div_mod::lemma_mod_division_less_than_divisor(i, w as int);
                vstd::arithmetic::div_mod::lemma_div_pos_is_pos(i, w as int);
                vstd::arithmetic::div_mod::lemma_multiply_divide_lt(i, w as int, h as int);
                vstd::arithmetic::mul::lemma_mul_is_commutative(i / (w as int), w as int);
                assert(old(screen)@.spec_idx(i % (w as int), i / (w as int)) == i);
            }
            assert(screen@.pixels =~= target.pixels);
            assert(screen@.depths =~= target.depths);
            assert(screen@ =~= target);
        }
    }

    pub fn barycentric_coords(&self, px: Fx, py: Fx) -> (r: (Fx, Fx, Fx))
        ensures
            r == self.spec_barycentric(px, py),
    {
        let v0x = self.v2.pos.x.sub(self.v1.pos.x);
        let v0y = self.v2.pos.y.sub(self.v1.pos.y);
        let v1x = self.v3.pos.x.sub(self.v1.pos.x);
        let v1y = self.v3.pos.y.sub(self.v1.pos.y);
        let v2x = px.sub(self.v1.pos.x);
        let v2y = py.sub(self.v1.pos.y);
        let d00 = v0x.mul(v0x).add(v0y.mul(v0y));
        let d01 = v0x.mul(v1x).add(v0y.mul(v1y));
        let d11 = v1x.mul(v1x).add(v1y.mul(v1y));
        let d20 = v2x.mul(v0x).add(v2y.mul(v0y));
        let d21 = v2x.mul(v1x).add(v2y.mul(v1y));
        let denom = d00.mul(d11).sub(d01.mul(d01));
        if denom.raw == 0 {
            (Fx { raw: -FX_SCALE }, Fx { raw: -FX_SCALE }, Fx { raw: -FX_SCALE })
        } else {
            let beta = d11.mul(d20).sub(d01.mul(d21)).div(denom);
            let gamma = d00.mul(d21).sub(d01.mul(d20)).div(denom);
            let alpha = Fx { raw: FX_SCALE }.sub(beta).sub(gamma);
            (alpha, beta, gamma)
        }
    }

    /// Interpolate the vertex colors at the given barycentric weights; the
    /// result is fully opaque.
    pub fn interpolate_color(&self, alpha: Fx, beta: Fx, gamma: Fx) -> (c: Color)
        ensures
            c == self.spec_interpolate_color(alpha, beta, gamma),
    {
        let r = interp_channel_exec(
            self.v1.color.r,
            self.v2.color.r,
            self.v3.color.r,
            alpha,
            beta,
            gamma,
        );
        let g = interp_channel_exec(
            self.v1.color.g,
            self.v2.color.g,
            self.v3.color.g,
            alpha,
            beta,
            gamma,
        );
        let b = interp_channel_exec(
            self.v1.color.b,
            self.v2.color.b,
            self.v3.color.b,
            alpha,
            beta,
            gamma,
        );
        Color { r, g, b, a: 255 }
    }
}

/// One vertex taken through the camera, as [`Triangle::spec_project_vertex`]
/// says.
fn project_vertex(camera: &Camera, v: &Vertex, w: usize, h: usize) -> (r: Option<Vertex>)
    ensures
        r == Triangle::spec_project_vertex(*camera, *v, w as int, h as int),
{
    let forward = Vector3::subtract(&camera.pointing_at, &camera.pos).normalizeV();
    let right = forward.cross(
        &Vector3 { x: Fx { raw: 0 }, y: Fx { raw: FX_SCALE }, z: Fx { raw: 0 } },
    ).normalizeV();
    let up = right.cross(&forward);
    let relative = Vector3::subtract(&v.pos, &camera.pos);
    let cx = Vector3::dot(&relative, &right);
    let cy = Vector3::dot(&relative, &up);
    let cz = Vector3::dot(&relative, &forward);
    if cz.raw < NEAR_RAW || cz.raw > FAR_RAW {
        return None;
    }
    let aspect = Fx::from_int(w as i64).div(Fx::from_int(h as i64));
    let tan_half = crate::trig::tan_deg(camera.fov.mul(Fx { raw: 32768 }));
    let ndc_x = cx.div(tan_half.mul(cz));
    let ndc_y = cy.div(tan_half.mul(cz).div(aspect));
    let half = Fx { raw: 32768 };
    let screen_x = ndc_x.mul(half).add(half).mul(Fx::from_int(w as i64));
    let screen_y = Fx { raw: FX_SCALE }.sub(ndc_y.mul(half).add(half)).mul(Fx::from_int(h as i64));
    Some(
        Vertex {
            pos: Vector3 { x: screen_x, y: screen_y, z: cz },
            texture_coord: v.texture_coord,
            color: v.color,
        },
    )
}

/// For a non-degenerate triangle the three barycentric coordinates sum to
/// exactly one, at any sample point whose coordinates stay clear of the
/// saturation range: the first coordinate is defined as one minus the other
/// two, and nothing saturates on the way back.
pub proof fn lemma_barycentric_sum(t: Triangle, px: Fx, py: Fx)
    requires
        t.spec_bary_denom() != 0,
        ({
            let c = t.spec_barycentric(px, py);
            &&& -0x1000_0000_0000_0000 <= c.1.raw as int <= 0x1000_0000_0000_0000
            &&& -0x1000_0000_0000_0000 <= c.2.raw as int <= 0x1000_0000_0000_0000
        }),
    ensures
        ({
            let c = t.spec_barycentric(px, py);
            fx_add(fx_add(c.0.raw as int, c.1.raw as int), c.2.raw as int) == FX_SCALE as int
        }),
{
}

/// Sampled exactly at its first vertex, a non-degenerate triangle has
/// barycentric coordinates `(1, 0, 0)`.
pub proof fn lemma_barycentric_at_v1(t: Triangle)
    requires
        t.spec_bary_denom() != 0,
    ensures
        t.spec_barycentric(t.v1.pos.x, t.v1.pos.y) == (
            fx(FX_SCALE as int),
            fx(0),
            fx(0),
        ),
{
    let px = t.v1.pos.x;
    let py = t.v1.pos.y;
    let v0x = fx_sub(t.v2.pos.x.raw as int, t.v1.pos.x.raw as int);
    let v0y = fx_sub(t.v2.pos.y.raw as int, t.v1.pos.y.raw as int);
    let v1x = fx_sub(t.v3.pos.x.raw as int, t.v1.pos.x.raw as int);
    let v1y = fx_sub(t.v3.pos.y.raw as int, t.v1.pos.y.raw as int);
    let d00 = fx_add(fx_mul(v0x, v0x), fx_mul(v0y, v0y));
    let d01 = fx_add(fx_mul(v0x, v1x), fx_mul(v0y, v1y));
    let d11 = fx_add(fx_mul(v1x, v1x), fx_mul(v1y, v1y));
    assert(fx_sub(px.raw as int, t.v1.pos.x.raw as int) == 0);
    assert(fx_sub(py.raw as int, t.v1.pos.y.raw as int) == 0);
    assert(fx_mul(0, v0x) == 0) by {
        assert(0 * v0x == 0) by (nonlinear_arith);
    }
    assert(fx_mul(0, v0y) == 0) by {
        assert(0 * v0y == 0) by (nonlinear_arith);
    }
    assert(fx_mul(0, v1x) == 0) by {
        assert(0 * v1x == 0) by (nonlinear_arith);
    }
    assert(fx_mul(0, v1y) == 0) by {
        assert(0 * v1y == 0) by (nonlinear_arith);
    }
    assert(fx_add(fx_mul(0, v0x), fx_mul(0, v0y)) == 0);
    assert(fx_add(fx_mul(0, v1x), fx_mul(0, v1y)) == 0);
    let denom = fx_sub(fx_mul(d00, d11), fx_mul(d01, d01));
    assert(fx_mul(d11, 0) == 0) by {
        assert(d11 * 0 == 0) by (nonlinear_arith);
    }
    assert(fx_mul(d01, 0) == 0) by {
        assert(d01 * 0 == 0) by (nonlinear_arith);
    }
    assert(fx_mul(d00, 0) == 0) by {
        assert(d00 * 0 == 0) by (nonlinear_arith);
    }
    assert(fx_div(fx_sub(fx_mul(d11, 0), fx_mul(d01, 0)), denom) == 0);
    assert(fx_div(fx_sub(fx_mul(d00, 0), fx_mul(d01, 0)), denom) == 0);
    assert(fx_sub(fx_sub(FX_SCALE as int, 0), 0) == FX_SCALE as int);
}

/// A triangle whose vertices all lie beyond the far plane along the view
/// axis is culled whole: the projection discards it and drawing it leaves
/// the screen untouched.
pub proof fn lemma_far_cull<S: PixelShader>(
    t: Triangle,
    cam: Camera,
    sv: ScreenView,
    shader: S,
)
    requires
        Vector3::spec_dot(Vector3::spec_sub(t.v1.pos, cam.pos), cam.spec_direction()) > FAR_RAW
            as int,
        Vector3::spec_dot(Vector3::spec_sub(t.v2.pos, cam.pos), cam.spec_direction()) > FAR_RAW
            as int,
        Vector3::spec_dot(Vector3::spec_sub(t.v3.pos, cam.pos), cam.spec_direction()) > FAR_RAW
            as int,
    ensures
        t.spec_project(cam, sv.width, sv.height) is None,
        t.spec_project_and_fill(sv, cam, shader) == sv,
{
    assert(Triangle::spec_project_vertex(cam, t.v1, sv.width, sv.height) is None);
}

/// Two distinct pixel coordinates never share a row-major index.
pub proof fn lemma_row_major_distinct(w: int, x1: int, y1: int, x2: int, y2: int)
    requires
        0 <= x1 < w,
        0 <= x2 < w,
        0 <= y1,
        0 <= y2,
        x1 != x2 || y1 != y2,
    ensures
        y1 * w + x1 != y2 * w + x2,
{
    assert(y1 * w + x1 != y2 * w + x2) by (nonlinear_arith)
        requires
            0 <= x1 < w,
            0 <= x2 < w,
            0 <= y1,
            0 <= y2,
            x1 != x2 || y1 != y2,
    ;
}

/// The floor of a raw value never exceeds the ceiling of a larger one.
pub proof fn lemma_fx_floor_le_ceil(a: int, b: int)
    requires
        a <= b,
    ensures
        fx_floor(a) <= fx_ceil(b),
{
    vstd::arithmetic::div_mod::lemma_div_is_ordered(a, b, FX_SCALE as int);
    vstd::arithmetic::div_mod::lemma_fundamental_div_mod(b, FX_SCALE as int);
    vstd::arithmetic::div_mod::lemma_mod_division_less_than_divisor(b, FX_SCALE as int);
    let q = b / (FX_SCALE as int);
    let r = b % (FX_SCALE as int);
    if r == 0 {
        vstd::arithmetic::div_mod::lemma_div_multiples_vanish(-q, FX_SCALE as int);
        assert(-b == (FX_SCALE as int) * (-q));
        assert((-b) / (FX_SCALE as int) == -q);
    } else {
        vstd::arithmetic::div_mod::lemma_fundamental_div_mod_converse_div(
            -b,
            FX_SCALE as int,
            -q - 1,
            (FX_SCALE as int) - r,
        );
        assert((-b) / (FX_SCALE as int) == -q - 1);
    }
}

/// Clamp a coordinate into `[0, limit - 1]`.
fn clamp_coord(f: i64, limit: usize) -> (r: usize)
    requires
        limit >= 1,
    ensures
        r as int == clamp_idx(f as int, limit as int),
{
    if f < 0 {
        0
    } else {
        let fu = f as u64;
        if fu >= limit as u64 {
            limit - 1
        } else {
            fu as usize
        }
    }
}

/// A product of an 8-bit value and a raw scalar stays well inside an `i128`.
proof fn lemma_channel_product_bound(c: int, r: int)
    requires
        0 <= c <= 255,
        i64::MIN <= r <= i64::MAX,
    ensures
        -0x7f80_0000_0000_0000_0000 <= c * r <= 0x7f80_0000_0000_0000_0000,
{
    assert(-0x7f80_0000_0000_0000_0000 <= c * r <= 0x7f80_0000_0000_0000_0000)
        by (nonlinear_arith)
        requires
            0 <= c <= 255,
            -0x8000_0000_0000_0000 <= r <= 0x8000_0000_0000_0000,
    ;
}

fn interp_channel_exec(c1: u8, c2: u8, c3: u8, a: Fx, b: Fx, g: Fx) -> (out: u8)
    ensures
        out as int == interp_channel(
            c1 as int,
            c2 as int,
            c3 as int,
            a.raw as int,
            b.raw as int,
            g.raw as int,
        ),
{
    proof {
        lemma_channel_product_bound(c1 as int, a.raw as int);
        lemma_channel_product_bound(c2 as int, b.raw as int);
        lemma_channel_product_bound(c3 as int, g.raw as int);
    }
    let sum: i128 = (c1 as i128) * (a.raw as i128) + (c2 as i128) * (b.raw as i128) + (c3 as i128)
        * (g.raw as i128);
    proof {
        lemma_tdiv_magnitude(sum as int, FX_SCALE as int);
    }
    let q: i128 = sum.checked_div(FX_SCALE as i128).unwrap();
    if q < 0 {
        0
    } else if q > 255 {
        255
    } else {
        q as u8
    }
}

} // verus!
