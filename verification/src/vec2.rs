//! 2D vectors over the fixed-point scalar.

use crate::fixed::{fx, fx_mul, fx_sub, Fx};
use vstd::prelude::*;

verus! {

#[derive(Clone, Copy, Debug, PartialEq, Eq, Structural)]
pub struct Vector2 {
    pub x: Fx,
    pub y: Fx,
}

impl Vector2 {
    /// Componentwise difference.
    pub open spec fn spec_sub(a: Vector2, b: Vector2) -> Vector2 {
        Vector2 {
            x: fx(fx_sub(a.x.raw as int, b.x.raw as int)),
            y: fx(fx_sub(a.y.raw as int, b.y.raw as int)),
        }
    }

    /// Componentwise product.
    pub open spec fn spec_mul(a: Vector2, b: Vector2) -> Vector2 {
        Vector2 {
            x: fx(fx_mul(a.x.raw as int, b.x.raw as int)),
            y: fx(fx_mul(a.y.raw as int, b.y.raw as int)),
        }
    }

    pub fn new(x: Fx, y: Fx) -> (v: Vector2)
        ensures
            v == (Vector2 { x, y }),
    {
        Vector2 { x, y }
    }

    pub fn sub(self, rhs: Vector2) -> (v: Vector2)
        ensures
            v == Vector2::spec_sub(self, rhs),
    {
        Vector2 { x: self.x.sub(rhs.x), y: self.y.sub(rhs.y) }
    }

    pub fn mul(self, rhs: Vector2) -> (v: Vector2)
        ensures
            v == Vector2::spec_mul(self, rhs),
    {
        Vector2 { x: self.x.mul(rhs.x), y: self.y.mul(rhs.y) }
    }
}

} // verus!
