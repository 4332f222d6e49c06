//! A scanline mask: every even row loses its alpha.

use crate::color::Color;
use crate::pixel_placement::PixelPlacement;
use crate::pixel_shader::PixelShader;
use crate::triangle::Triangle;
use vstd::prelude::*;

verus! {

#[derive(Clone, Copy, Debug, PartialEq, Eq, Structural)]
pub struct EvenLineMissingShader;

impl PixelShader for EvenLineMissingShader {
    open spec fn spec_process(self, pp: PixelPlacement, triangle: Triangle) -> PixelPlacement {
        if pp.y % 2 != 0 {
            pp
        } else {
            PixelPlacement { color: Color { a: 0, ..pp.color }, ..pp }
        }
    }

    fn process(&self, pp: &mut PixelPlacement, triangle: &Triangle) {
        pp.color.a = if pp.y % 2 != 0 {
            pp.color.a
        } else {
            0
        };
    }
}

} // verus!
