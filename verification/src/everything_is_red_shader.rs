//! A shader that overrides every pixel with opaque red.

use crate::color::Color;
use crate::pixel_placement::PixelPlacement;
use crate::pixel_shader::PixelShader;
use crate::triangle::Triangle;
use vstd::prelude::*;

verus! {

#[derive(Clone, Copy, Debug, PartialEq, Eq, Structural)]
pub struct EverythingIsRedShader;

impl PixelShader for EverythingIsRedShader {
    open spec fn spec_process(self, pp: PixelPlacement, triangle: Triangle) -> PixelPlacement {
        PixelPlacement { color: Color { r: 255, g: 0, b: 0, a: 255 }, ..pp }
    }

    fn process(&self, pp: &mut PixelPlacement, triangle: &Triangle) {
        pp.color = Color { r: 255, g: 0, b: 0, a: 255 };
    }
}

} // verus!
