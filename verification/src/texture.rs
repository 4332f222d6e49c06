//! A plain RGBA texture: a sized grid of colors.

use crate::color::Color;
use vstd::prelude::*;

verus! {

#[derive(Debug)]
pub struct Texture {
    pub width: u32,
    pub height: u32,
    pub pixels: Vec<Color>,
}

impl Texture {
    /// One entry per texel.
    pub open spec fn wf(self) -> bool {
        self.pixels@.len() == (self.width as int) * (self.height as int)
    }

    /// The texel index of `(x, y)`: row-major, origin top-left.
    pub open spec fn spec_idx(self, x: int, y: int) -> int {
        y * (self.width as int) + x
    }

    /// A texture of the given size, black and fully opaque.
    pub fn new(width: u32, height: u32) -> (t: Texture)
        requires
            (width as int) * (height as int) <= u32::MAX,
        ensures
            t.wf(),
            t.width == width,
            t.height == height,
            forall|i: int|
                0 <= i < t.pixels@.len() ==> t.pixels@[i] == (Color { r: 0, g: 0, b: 0, a: 255 }),
    {
        proof {
            assert((width as int) * (height as int) >= 0) by (nonlinear_arith)
                requires
                    width as int >= 0 && height as int >= 0,
            ;
        }
        let count: usize = (width as usize) * (height as usize);
        let mut pixels: Vec<Color> = Vec::new();
        while pixels.len() < count
            invariant
                pixels@.len() <= count,
                forall|i: int|
                    0 <= i < pixels@.len() ==> pixels@[i] == (Color { r: 0, g: 0, b: 0, a: 255 }),
            decreases count - pixels@.len(),
        {
            pixels.push(Color { r: 0, g: 0, b: 0, a: 255 });
        }
        Texture { width, height, pixels }
    }

    /// A mutable handle on one texel.
    pub fn get_pixel_mut(&mut self, x: u32, y: u32) -> (c: &mut Color)
        requires
            old(self).wf(),
            x < old(self).width,
            y < old(self).height,
        ensures
            *c == old(self).pixels@[old(self).spec_idx(x as int, y as int)],
            final(self).width == old(self).width,
            final(self).height == old(self).height,
            final(self).pixels@ == old(self).pixels@.update(
                old(self).spec_idx(x as int, y as int),
                *final(c),
            ),
            final(self).wf(),
    {
        proof {
            crate::screen::lemma_row_major_bound(
                x as int,
                y as int,
                self.width as int,
                self.height as int,
            );
            vstd::std_specs::vec::axiom_spec_len(&self.pixels);
        }
        let index = (y as usize) * (self.width as usize) + (x as usize);
        &mut self.pixels[index]
    }

    /// One texel.
    pub fn get_pixel(&self, x: u32, y: u32) -> (c: &Color)
        requires
            self.wf(),
            x < self.width,
            y < self.height,
        ensures
            *c == self.pixels@[self.spec_idx(x as int, y as int)],
    {
        proof {
            crate::screen::lemma_row_major_bound(
                x as int,
                y as int,
                self.width as int,
                self.height as int,
            );
            vstd::std_specs::vec::axiom_spec_len(&self.pixels);
        }
        let index = (y as usize) * (self.width as usize) + (x as usize);
        &self.pixels[index]
    }
}

} // verus!
