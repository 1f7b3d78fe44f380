//! The follow-camera's panning state machine.
//!
//! The camera holds still while the player sits inside its deadzone.
//! Once the player leaves it, panning engages and a blend weight ramps
//! up; while at rest the weight ramps back down.  Panning lets go as
//! soon as the throttle falls away.  The actual interpolation of the
//! camera transform is the host's; the engage/release decision and the
//! blend weight are exact here.

use vstd::prelude::*;

use crate::math::{spec_dist_sq, Vec2I, COORD_LIMIT};
use crate::spatial::radius_sq;

verus! {

/// The camera's panning state: whether it pans, and the blend weight
/// in milli-units `[0, 1000]`.
#[derive(Clone, Copy, PartialEq, Eq, Structural, Debug)]
pub struct CameraPan {
    pub panning: bool,
    pub blend_milli: i64,
}

impl CameraPan {
    /// The blend weight stays inside `[0, 1000]`.
    pub open spec fn wf(self) -> bool {
        0 <= self.blend_milli <= 1_000
    }
}

/// Clamp a value into `[0, 1000]`.
pub open spec fn spec_clamp_milli(v: int) -> int {
    if v < 0 {
        0
    } else if v > 1_000 {
        1_000
    } else {
        v
    }
}

/// The panning state one tick later, given whether the player stands
/// outside the deadzone and the current throttle: a resting camera
/// engages when the player escapes (resetting the blend), otherwise
/// bleeds the blend down; a panning camera ramps the blend up, and
/// releases when the throttle drops below 0.7.
pub open spec fn spec_pan_step(s: CameraPan, outside_deadzone: bool, thrust_milli: i64) -> CameraPan {
    if !s.panning {
        if outside_deadzone {
            CameraPan { panning: true, blend_milli: 0 }
        } else {
            CameraPan { panning: false, blend_milli: spec_clamp_milli(s.blend_milli - 100) as i64 }
        }
    } else {
        let ramped = spec_clamp_milli(s.blend_milli + 50) as i64;
        if thrust_milli < 700 {
            CameraPan { panning: false, blend_milli: ramped }
        } else {
            CameraPan { panning: true, blend_milli: ramped }
        }
    }
}

/// Advance the camera's panning state one tick from the camera and
/// player positions, exactly per `spec_pan_step` with the deadzone
/// test `distance(camera, player) > deadzone`.
pub fn camera_follow(
    state: &mut CameraPan,
    camera_pos: Vec2I,
    player_pos: Vec2I,
    deadzone: i64,
    thrust_milli: i64,
)
    requires
        old(state).wf(),
        camera_pos.in_bounds(),
        player_pos.in_bounds(),
        0 <= deadzone <= COORD_LIMIT,
    ensures
        final(state).wf(),
        *final(state) == spec_pan_step(
            *old(state),
            spec_dist_sq(camera_pos, player_pos) > deadzone * deadzone,
            thrust_milli,
        ),
{
    let d2 = camera_pos.dist_sq(player_pos);
    let z2 = radius_sq(deadzone);
    let outside = d2 > z2;
    if !state.panning {
        if outside {
            state.panning = true;
            state.blend_milli = 0;
        } else {
            let v = state.blend_milli - 100;
            state.blend_milli = if v < 0 {
                0
            } else if v > 1_000 {
                1_000
            } else {
                v
            };
        }
    } else {
        let v = state.blend_milli + 50;
        state.blend_milli = if v < 0 {
            0
        } else if v > 1_000 {
            1_000
        } else {
            v
        };
        if thrust_milli < 700 {
            state.panning = false;
        }
    }
}

} // verus!
