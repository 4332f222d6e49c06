//! The camera: field of view, position and look-at target, with the zoom and
//! drag controls that move it between frames.

use crate::fixed::{fx, fx_div, fx_mul, fx_neg, fx_sub, Fx};
use crate::vec2::Vector2;
use crate::vec3::Vector3;
use vstd::prelude::*;

verus! {

/// The drag speed coefficient (0.03) and the resolution the speed is scaled
/// against (1000 pixels), in raw units.
pub const DRAG_SCALE_RAW: i64 = 1966;

pub const DRAG_REFERENCE_RES_RAW: i64 = 65536000;

#[derive(Clone, Copy, Debug, PartialEq, Eq, Structural)]
pub struct Camera {
    pub fov: Fx,
    pub pos: Vector3,
    pub pointing_at: Vector3,
}

impl Camera {
    /// The unit direction from the camera toward its target.
    pub open spec fn spec_direction(self) -> Vector3 {
        Vector3::spec_normalize_v(Vector3::spec_sub(self.pointing_at, self.pos))
    }

    /// The movement a drag between two screen positions produces: along the
    /// camera's right and up vectors, scaled by 0.03 of the larger screen
    /// dimension per thousand pixels.
    pub open spec fn spec_drag_movement(
        self,
        initial: Vector2,
        current: Vector2,
        res: Vector2,
    ) -> Vector3 {
        let dx = fx_sub(current.x.raw as int, initial.x.raw as int);
        let dy = fx_sub(current.y.raw as int, initial.y.raw as int);
        let maxres = if res.x.raw >= res.y.raw {
            res.x.raw as int
        } else {
            res.y.raw as int
        };
        let scale = fx_mul(DRAG_SCALE_RAW as int, fx_div(maxres, DRAG_REFERENCE_RES_RAW as int));
        let forward = self.spec_direction();
        let right = Vector3::spec_normalize_v(
            Vector3::spec_cross(forward, Vector3 { x: fx(0), y: fx(65536), z: fx(0) }),
        );
        let up = Vector3::spec_cross(right, forward);
        Vector3::spec_add(
            Vector3::spec_scale(right, fx(fx_mul(fx_neg(dx), scale))),
            Vector3::spec_scale(up, fx(fx_mul(dy, scale))),
        )
    }

    /// The standard starting camera: a 45 degree field of view at `(7, 5, 8)`
    /// looking at the origin.
    pub fn new() -> (c: Camera)
        ensures
            c.fov.raw == 2949120,
            c.pos == (Vector3 { x: Fx { raw: 458752 }, y: Fx { raw: 327680 }, z: Fx { raw: 524288 } }),
            c.pointing_at == (Vector3 { x: Fx { raw: 0 }, y: Fx { raw: 0 }, z: Fx { raw: 0 } }),
    {
        Camera {
            fov: Fx { raw: 2949120 },
            pos: Vector3 { x: Fx { raw: 458752 }, y: Fx { raw: 327680 }, z: Fx { raw: 524288 } },
            pointing_at: Vector3 { x: Fx { raw: 0 }, y: Fx { raw: 0 }, z: Fx { raw: 0 } },
        }
    }

    /// Move the camera along its viewing direction; a positive amount closes
    /// on the target.
    pub fn zoom(&mut self, zoom_amount: Fx)
        ensures
            final(self).fov == old(self).fov,
            final(self).pointing_at == old(self).pointing_at,
            final(self).pos == Vector3::spec_add(
                old(self).pos,
                Vector3::spec_scale(old(self).spec_direction(), zoom_amount),
            ),
    {
        let direction = Vector3::subtract(&self.pointing_at, &self.pos).normalizeV();
        self.pos = Vector3::add(&self.pos, &Vector3::scale(&direction, zoom_amount));
    }

    /// Pan the camera and its target together by the drag between two screen
    /// positions.
    pub fn drag_move(
        &mut self,
        initial_screen_pos: &Vector2,
        current_screen_pos: &Vector2,
        screen_res: &Vector2,
    )
        ensures
            final(self).fov == old(self).fov,
            final(self).pos == Vector3::spec_add(
                old(self).pos,
                old(self).spec_drag_movement(
                    *initial_screen_pos,
                    *current_screen_pos,
                    *screen_res,
                ),
            ),
            final(self).pointing_at == Vector3::spec_add(
                old(self).pointing_at,
                old(self).spec_drag_movement(
                    *initial_screen_pos,
                    *current_screen_pos,
                    *screen_res,
                ),
            ),
    {
        let drag_delta = current_screen_pos.sub(*initial_screen_pos);
        let maxres = screen_res.x.max(screen_res.y);
        let movement_scale = Fx { raw: DRAG_SCALE_RAW }.mul(
            maxres.div(Fx { raw: DRAG_REFERENCE_RES_RAW }),
        );
        let forward = Vector3::subtract(&self.pointing_at, &self.pos).normalizeV();
        let right = forward.cross(
            &Vector3 { x: Fx { raw: 0 }, y: Fx { raw: 65536 }, z: Fx { raw: 0 } },
        ).normalizeV();
        let up = right.cross(&forward);
        let movement = Vector3::add(
            &Vector3::scale(&right, drag_delta.x.neg().mul(movement_scale)),
            &Vector3::scale(&up, drag_delta.y.mul(movement_scale)),
        );
        self.pos = Vector3::add(&self.pos, &movement);
        self.pointing_at = Vector3::add(&self.pointing_at, &movement);
    }
}

} // verus!
