//! The transient per-pixel record threaded through the shader chain.

use crate::color::Color;
use crate::fixed::Fx;
use vstd::prelude::*;

verus! {

#[derive(Clone, Copy, Debug, PartialEq, Eq, Structural)]
pub struct PixelPlacement {
    pub x: usize,
    pub y: usize,
    pub color: Color,
    pub depth: Fx,
}

} // verus!
