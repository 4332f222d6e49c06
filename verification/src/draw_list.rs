//! An ordered batch of triangles drawn with one camera and one shader.
//!
//! Drawing performs no sorting or deduplication: overlap is resolved only by
//! the per-pixel depth test.

use crate::camera::Camera;
use crate::pixel_shader::PixelShader;
use crate::screen::{Screen, ScreenView};
use crate::triangle::Triangle;
use vstd::prelude::*;

verus! {

/// The screen after the triangles of the sequence are drawn in order, first
/// to last.
pub open spec fn spec_draw_all<S: PixelShader>(
    sv: ScreenView,
    ts: Seq<Triangle>,
    cam: Camera,
    shader: S,
) -> ScreenView
    decreases ts.len(),
{
    if ts.len() == 0 {
        sv
    } else {
        spec_draw_all(ts[0].spec_project_and_fill(sv, cam, shader), ts.drop_first(), cam, shader)
    }
}

pub struct DrawList {
    pub triangles: Vec<Triangle>,
}

impl DrawList {
    pub fn new() -> (d: DrawList)
        ensures
            d.triangles@.len() == 0,
    {
        DrawList { triangles: Vec::new() }
    }

    /// Append copies of the given triangles, in order.
    pub fn add(&mut self, triangles: &Vec<Triangle>)
        ensures
            final(self).triangles@ == old(self).triangles@ + triangles@,
    {
        let ghost start = self.triangles@;
        let n = triangles.len();
        let mut i: usize = 0;
        while i < n
            invariant
                i <= n,
                n == triangles@.len(),
                self.triangles@ == start + triangles@.take(i as int),
            decreases n - i,
        {
            proof {
                assert(start + triangles@.take(i as int + 1) =~= (start + triangles@.take(
                    i as int,
                )).push(triangles@[i as int]));
            }
            self.triangles.push(triangles[i].clone());
            i += 1;
        }
        proof {
            assert(triangles@.take(n as int) =~= triangles@);
        }
    }

    /// Draw every triangle in order through the full projection,
    /// rasterization and compositing pipeline.
    pub fn draw<S: PixelShader>(&self, screen: &mut Screen, cam: &Camera, shader: &S)
        requires
            old(screen).wf(),
        ensures
            final(screen).wf(),
            final(screen)@ == spec_draw_all(old(screen)@, self.triangles@, *cam, *shader),
    {
        let ghost all = self.triangles@;
        let n = self.triangles.len();
        proof {
            assert(all.skip(0) =~= all);
        }
        let mut i: usize = 0;
        while i < n
            invariant
                i <= n,
                n == all.len(),
                all == self.triangles@,
                screen.wf(),
                spec_draw_all(old(screen)@, all, *cam, *shader) == spec_draw_all(
                    screen@,
                    all.skip(i as int),
                    *cam,
                    *shader,
                ),
            decreases n - i,
        {
            proof {
                assert(all.skip(i as int).len() > 0);
                assert(all.skip(i as int)[0] == all[i as int]);
                assert(all.skip(i as int).drop_first() =~= all.skip(i as int + 1));
            }
            screen.draw_triangle(&self.triangles[i], cam, shader);
            i += 1;
        }
        proof {
            assert(all.skip(n as int).len() == 0);
        }
    }
}

} // verus!
