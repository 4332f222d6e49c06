//! A checkerboard mask: alpha is zeroed where both coordinates are odd.

use crate::color::Color;
use crate::pixel_placement::PixelPlacement;
use crate::pixel_shader::PixelShader;
use crate::triangle::Triangle;
use vstd::prelude::*;

verus! {

#[derive(Clone, Copy, Debug, PartialEq, Eq, Structural)]
pub struct DitherShader;

impl PixelShader for DitherShader {
    open spec fn spec_process(self, pp: PixelPlacement, triangle: Triangle) -> PixelPlacement {
        if pp.y % 2 != 0 && pp.x % 2 != 0 {
            PixelPlacement { color: Color { a: 0, ..pp.color }, ..pp }
        } else {
            pp
        }
    }

    fn process(&self, pp: &mut PixelPlacement, triangle: &Triangle) {
        let alt: bool = if pp.y % 2 == 0 {
            false
        } else {
            true
        };
        pp.color.a = if alt && pp.x % 2 != 0 {
            0
        } else {
            pp.color.a
        };
    }
}

} // verus!
