//! Axis-aligned rectangles, used for overlay blits between screens.

use crate::fixed::{fx, fx_add, Fx};
use crate::vec2::Vector2;
use vstd::prelude::*;

verus! {

#[derive(Clone, Copy, Debug, PartialEq, Eq, Structural)]
pub struct Rect {
    pub pos: Vector2,
    pub size: Vector2,
}

impl Rect {
    /// The rectangle clamped against a limit rectangle: a position pulled up
    /// to the limit's origin records the overshoot, and the size takes the
    /// limit where it is smaller, corrected by that overshoot.
    pub open spec fn spec_clamped_to(self, limit: Rect) -> Rect {
        let diff_x: int = if self.pos.x.raw < limit.pos.x.raw {
            fx_add(self.pos.x.raw as int, limit.pos.x.raw as int)
        } else {
            0
        };
        let diff_y: int = if self.pos.y.raw < limit.pos.y.raw {
            fx_add(self.pos.y.raw as int, limit.pos.y.raw as int)
        } else {
            0
        };
        Rect {
            pos: Vector2 {
                x: if self.pos.x.raw < limit.pos.x.raw {
                    limit.pos.x
                } else {
                    self.pos.x
                },
                y: if self.pos.y.raw < limit.pos.y.raw {
                    limit.pos.y
                } else {
                    self.pos.y
                },
            },
            size: Vector2 {
                x: fx(
                    if self.size.x.raw < limit.size.x.raw {
                        fx_add(limit.size.x.raw as int, diff_x)
                    } else {
                        fx_add(self.size.x.raw as int, diff_x)
                    },
                ),
                y: fx(
                    if self.size.y.raw < limit.size.y.raw {
                        fx_add(limit.size.y.raw as int, diff_y)
                    } else {
                        fx_add(self.size.y.raw as int, diff_y)
                    },
                ),
            },
        }
    }

    /// Creates a new [`Rect`].
    pub fn new(pos: Vector2, size: Vector2) -> (r: Rect)
        ensures
            r == (Rect { pos, size }),
    {
        Rect { pos, size }
    }

    pub fn clamped_to(&self, limit: Rect) -> (r: Rect)
        ensures
            r == self.spec_clamped_to(limit),
    {
        let mut size_diff = Vector2::new(Fx { raw: 0 }, Fx { raw: 0 });
        let pos_x = if self.pos.x.raw < limit.pos.x.raw {
            size_diff.x = self.pos.x.add(limit.pos.x);
            limit.pos.x
        } else {
            self.pos.x
        };
        let pos_y = if self.pos.y.raw < limit.pos.y.raw {
            size_diff.y = self.pos.y.add(limit.pos.y);
            limit.pos.y
        } else {
            self.pos.y
        };
        let size_x = if self.size.x.raw < limit.size.x.raw {
            limit.size.x.add(size_diff.x)
        } else {
            self.size.x.add(size_diff.x)
        };
        let size_y = if self.size.y.raw < limit.size.y.raw {
            limit.size.y.add(size_diff.y)
        } else {
            self.size.y.add(size_diff.y)
        };
        Rect { pos: Vector2 { x: pos_x, y: pos_y }, size: Vector2 { x: size_x, y: size_y } }
    }
}

} // verus!
