//! Procedural geometry helpers: floor rectangles, rotated walls, and
//! camera-billboarded 3D lines, each as a pair of triangles.

use crate::camera::Camera;
use crate::color::Color;
use crate::fixed::{fx, fx_add, fx_mul, fx_sub, Fx, FX_SCALE};
use crate::trig::{spec_cos_deg, spec_sin_deg};
use crate::triangle::Triangle;
use crate::vec2::Vector2;
use crate::vec3::Vector3;
use crate::vertex::Vertex;
use vstd::prelude::*;

verus! {

pub struct TriangleGen;

impl TriangleGen {
    /// The two triangles of a horizontal rectangle spanning the given
    /// corners at the given height, with texture coordinates scaled by its
    /// size.
    pub open spec fn spec_floor_rect(
        start: Vector2,
        end: Vector2,
        height: Fx,
        color: Color,
    ) -> Seq<Triangle> {
        let min_x = if start.x.raw <= end.x.raw {
            start.x
        } else {
            end.x
        };
        let max_x = if start.x.raw >= end.x.raw {
            start.x
        } else {
            end.x
        };
        let min_z = if start.y.raw <= end.y.raw {
            start.y
        } else {
            end.y
        };
        let max_z = if start.y.raw >= end.y.raw {
            start.y
        } else {
            end.y
        };
        let bottom_left = Vector3 { x: min_x, y: height, z: min_z };
        let bottom_right = Vector3 { x: max_x, y: height, z: min_z };
        let top_left = Vector3 { x: min_x, y: height, z: max_z };
        let top_right = Vector3 { x: max_x, y: height, z: max_z };
        let width = fx(fx_sub(max_x.raw as int, min_x.raw as int));
        let depth = fx(fx_sub(max_z.raw as int, min_z.raw as int));
        let tw = fx(fx_mul(width.raw as int, FX_SCALE as int));
        let td = fx(fx_mul(depth.raw as int, FX_SCALE as int));
        seq![
            Triangle {
                v1: Vertex {
                    pos: bottom_left,
                    texture_coord: Vector2 { x: fx(0), y: fx(0) },
                    color,
                },
                v2: Vertex {
                    pos: bottom_right,
                    texture_coord: Vector2 { x: tw, y: fx(0) },
                    color,
                },
                v3: Vertex { pos: top_left, texture_coord: Vector2 { x: fx(0), y: td }, color },
            },
            Triangle {
                v1: Vertex {
                    pos: bottom_right,
                    texture_coord: Vector2 { x: tw, y: fx(0) },
                    color,
                },
                v2: Vertex { pos: top_right, texture_coord: Vector2 { x: tw, y: td }, color },
                v3: Vertex { pos: top_left, texture_coord: Vector2 { x: fx(0), y: td }, color },
            },
        ]
    }

    /// The two triangles of a wall: a quad standing on `bottom_left`,
    /// running `length` along the direction `rotation_deg` degrees around
    /// the vertical axis, `height` tall.
    pub open spec fn spec_wall(
        bottom_left: Vector3,
        length: Fx,
        height: Fx,
        rotation_deg: Fx,
        color: Color,
    ) -> Seq<Triangle> {
        let dir_x = spec_cos_deg(rotation_deg.raw as int);
        let dir_z = spec_sin_deg(rotation_deg.raw as int);
        let bottom_right = Vector3 {
            x: fx(fx_add(bottom_left.x.raw as int, fx_mul(dir_x, length.raw as int))),
            y: bottom_left.y,
            z: fx(fx_add(bottom_left.z.raw as int, fx_mul(dir_z, length.raw as int))),
        };
        let top_left = Vector3 {
            x: bottom_left.x,
            y: fx(fx_add(bottom_left.y.raw as int, height.raw as int)),
            z: bottom_left.z,
        };
        let top_right = Vector3 {
            x: bottom_right.x,
            y: fx(fx_add(bottom_right.y.raw as int, height.raw as int)),
            z: bottom_right.z,
        };
        let tex_width = fx(fx_mul(length.raw as int, FX_SCALE as int));
        let tex_height = fx(fx_mul(height.raw as int, FX_SCALE as int));
        seq![
            Triangle {
                v1: Vertex {
                    pos: bottom_right,
                    texture_coord: Vector2 { x: tex_width, y: fx(0) },
                    color,
                },
                v2: Vertex {
                    pos: top_left,
                    texture_coord: Vector2 { x: fx(0), y: tex_height },
                    color,
                },
                v3: Vertex {
                    pos: top_right,
                    texture_coord: Vector2 { x: tex_width, y: tex_height },
                    color,
                },
            },
            Triangle {
                v1: Vertex {
                    pos: bottom_right,
                    texture_coord: Vector2 { x: tex_width, y: fx(0) },
                    color,
                },
                v2: Vertex {
                    pos: top_left,
                    texture_coord: Vector2 { x: fx(0), y: tex_height },
                    color,
                },
                v3: Vertex {
                    pos: bottom_left,
                    texture_coord: Vector2 { x: fx(0), y: fx(0) },
                    color,
                },
            },
        ]
    }

    /// The two triangles of a billboarded line: a quad from `start` to
    /// `end`, widened by half the thickness along the camera's right vector,
    /// with a color gradient between the ends.
    pub open spec fn spec_line(
        start: Vector3,
        end: Vector3,
        camera: Camera,
        start_color: Color,
        end_color: Color,
        thickness: Fx,
    ) -> Seq<Triangle> {
        let forward = camera.spec_direction();
        let right = Vector3::spec_normalize_v(
            Vector3::spec_cross(forward, Vector3 { x: fx(0), y: fx(FX_SCALE as int), z: fx(0) }),
        );
        let half_thickness = fx(fx_mul(thickness.raw as int, 32768));
        let offset = Vector3::spec_scale(right, half_thickness);
        let start_left = Vector3::spec_sub(start, offset);
        let start_right = Vector3::spec_add(start, offset);
        let end_left = Vector3::spec_sub(end, offset);
        let end_right = Vector3::spec_add(end, offset);
        let one = fx(FX_SCALE as int);
        seq![
            Triangle {
                v1: Vertex {
                    pos: start_right,
                    texture_coord: Vector2 { x: one, y: fx(0) },
                    color: start_color,
                },
                v2: Vertex {
                    pos: end_left,
                    texture_coord: Vector2 { x: fx(0), y: one },
                    color: end_color,
                },
                v3: Vertex {
                    pos: end_right,
                    texture_coord: Vector2 { x: one, y: one },
                    color: end_color,
                },
            },
            Triangle {
                v1: Vertex {
                    pos: start_right,
                    texture_coord: Vector2 { x: one, y: fx(0) },
                    color: start_color,
                },
                v2: Vertex {
                    pos: start_left,
                    texture_coord: Vector2 { x: fx(0), y: fx(0) },
                    color: start_color,
                },
                v3: Vertex {
                    pos: end_left,
                    texture_coord: Vector2 { x: fx(0), y: one },
                    color: end_color,
                },
            },
        ]
    }

    /// Create a floor rectangle between two corner points.
    pub fn create_floor_rect(start: Vector2, end: Vector2, height: Fx, color: Color) -> (r: Vec<
        Triangle,
    >)
        ensures
            r@ == TriangleGen::spec_floor_rect(start, end, height, color),
    {
        let min_x = start.x.min(end.x);
        let max_x = start.x.max(end.x);
        let min_z = start.y.min(end.y);
        let max_z = start.y.max(end.y);
        let bottom_left = Vector3::new(min_x, height, min_z);
        let bottom_right = Vector3::new(max_x, height, min_z);
        let top_left = Vector3::new(min_x, height, max_z);
        let top_right = Vector3::new(max_x, height, max_z);
        let width = max_x.sub(min_x);
        let depth = max_z.sub(min_z);
        let tex_scale = Fx { raw: FX_SCALE };
        let zero = Fx { raw: 0 };
        let tw = width.mul(tex_scale);
        let td = depth.mul(tex_scale);
        let t1 = Triangle::new(
            Vertex::new(&bottom_left, &Vector2::new(zero, zero), &color),
            Vertex::new(&bottom_right, &Vector2::new(tw, zero), &color),
            Vertex::new(&top_left, &Vector2::new(zero, td), &color),
        );
        let t2 = Triangle::new(
            Vertex::new(&bottom_right, &Vector2::new(tw, zero), &color),
            Vertex::new(&top_right, &Vector2::new(tw, td), &color),
            Vertex::new(&top_left, &Vector2::new(zero, td), &color),
        );
        let mut r: Vec<Triangle> = Vec::new();
        r.push(t1);
        r.push(t2);
        proof {
            assert(r@ =~= TriangleGen::spec_floor_rect(start, end, height, color));
        }
        r
    }

    /// Create a wall from a corner, a length, a height and a rotation.
    pub fn create_wall(
        bottom_left: &Vector3,
        length: Fx,
        height: Fx,
        rotation_deg: Fx,
        color: &Color,
    ) -> (r: Vec<Triangle>)
        ensures
            r@ == TriangleGen::spec_wall(*bottom_left, length, height, rotation_deg, *color),
    {
        let direction_x = crate::trig::cos_deg(rotation_deg);
        let direction_z = crate::trig::sin_deg(rotation_deg);
        let bottom_right = Vector3::new(
            bottom_left.x.add(direction_x.mul(length)),
            bottom_left.y,
            bottom_left.z.add(direction_z.mul(length)),
        );
        let top_left = Vector3::new(bottom_left.x, bottom_left.y.add(height), bottom_left.z);
        let top_right = Vector3::new(bottom_right.x, bottom_right.y.add(height), bottom_right.z);
        let tex_scale = Fx { raw: FX_SCALE };
        let zero = Fx { raw: 0 };
        let tex_width = length.mul(tex_scale);
        let tex_height = height.mul(tex_scale);
        let t1 = Triangle::new(
            Vertex::new(&bottom_right, &Vector2::new(tex_width, zero), color),
            Vertex::new(&top_left, &Vector2::new(zero, tex_height), color),
            Vertex::new(&top_right, &Vector2::new(tex_width, tex_height), color),
        );
        let t2 = Triangle::new(
            Vertex::new(&bottom_right, &Vector2::new(tex_width, zero), color),
            Vertex::new(&top_left, &Vector2::new(zero, tex_height), color),
            Vertex::new(&bottom_left, &Vector2::new(zero, zero), color),
        );
        let mut r: Vec<Triangle> = Vec::new();
        r.push(t1);
        r.push(t2);
        proof {
            assert(r@ =~= TriangleGen::spec_wall(
                *bottom_left,
                length,
                height,
                rotation_deg,
                *color,
            ));
        }
        r
    }

    /// Create a camera-facing line between two points.
    pub fn create_3d_line(
        start: &Vector3,
        end: &Vector3,
        camera: &Camera,
        start_color: &Color,
        end_color: &Color,
        thickness: Fx,
    ) -> (r: Vec<Triangle>)
        ensures
            r@ == TriangleGen::spec_line(
                *start,
                *end,
                *camera,
                *start_color,
                *end_color,
                thickness,
            ),
    {
        let forward = Vector3::subtract(&camera.pointing_at, &camera.pos).normalizeV();
        let right = forward.cross(
            &Vector3 { x: Fx { raw: 0 }, y: Fx { raw: FX_SCALE }, z: Fx { raw: 0 } },
        ).normalizeV();
        let half_thickness = thickness.mul(Fx { raw: 32768 });
        let offset = Vector3::scale(&right, half_thickness);
        let start_left = Vector3::subtract(start, &offset);
        let start_right = Vector3::add(start, &offset);
        let end_left = Vector3::subtract(end, &offset);
        let end_right = Vector3::add(end, &offset);
        let one = Fx { raw: FX_SCALE };
        let zero = Fx { raw: 0 };
        let t1 = Triangle::new(
            Vertex::new(&start_right, &Vector2::new(one, zero), start_color),
            Vertex::new(&end_left, &Vector2::new(zero, one), end_color),
            Vertex::new(&end_right, &Vector2::new(one, one), end_color),
        );
        let t2 = Triangle::new(
            Vertex::new(&start_right, &Vector2::new(one, zero), start_color),
            Vertex::new(&start_left, &Vector2::new(zero, zero), start_color),
            Vertex::new(&end_left, &Vector2::new(zero, one), end_color),
        );
        let mut r: Vec<Triangle> = Vec::new();
        r.push(t1);
        r.push(t2);
        proof {
            assert(r@ =~= TriangleGen::spec_line(
                *start,
                *end,
                *camera,
                *start_color,
                *end_color,
                thickness,
            ));
        }
        r
    }
}

} // verus!
