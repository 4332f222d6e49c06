//! The identity shader.

use crate::pixel_placement::PixelPlacement;
use crate::pixel_shader::PixelShader;
use crate::triangle::Triangle;
use vstd::prelude::*;

verus! {

#[derive(Clone, Copy, Debug, PartialEq, Eq, Structural)]
pub struct DummyPassthruShader;

impl PixelShader for DummyPassthruShader {
    open spec fn spec_process(self, pp: PixelPlacement, triangle: Triangle) -> PixelPlacement {
        pp
    }

    fn process(&self, pp: &mut PixelPlacement, triangle: &Triangle) {
    }
}

} // verus!
