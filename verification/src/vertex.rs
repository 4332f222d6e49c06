//! A pipeline vertex: position, texture coordinate and color.

use crate::color::Color;
use crate::vec2::Vector2;
use crate::vec3::Vector3;
use vstd::prelude::*;

verus! {

#[derive(Clone, Copy, Debug, PartialEq, Eq, Structural)]
pub struct Vertex {
    pub pos: Vector3,
    pub texture_coord: Vector2,
    pub color: Color,
}

impl Vertex {
    pub fn new(pos: &Vector3, texture_coord: &Vector2, color: &Color) -> (v: Vertex)
        ensures
            v == (Vertex { pos: *pos, texture_coord: *texture_coord, color: *color }),
    {
        Vertex { pos: *pos, texture_coord: *texture_coord, color: *color }
    }
}

} // verus!
