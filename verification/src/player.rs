//! The player controller: the authoritative discrete lane, changed
//! instantly on input, and the continuously interpolated screen
//! x-coordinate that approaches the lane's target at a constant speed and
//! snaps exactly onto it inside a small dead zone.

use vstd::prelude::*;

use crate::lane::{lane_offset, lane_step, Lane};
use crate::{MAX_DT_MS, MAX_LANE_SIZE_CU, PLAYER_SPEED_CU_PER_MS, SNAP_EPSILON_CU};

verus! {

/// The per-frame directional input, already collapsed to logical
/// just-pressed events by the frame driver.
#[derive(Debug, Clone, Copy, PartialEq, Eq, Structural)]
pub struct FrameInput {
    /// A "move left" event was just pressed this frame.
    pub move_left: bool,
    /// A "move right" event was just pressed this frame.
    pub move_right: bool,
}

/// The singleton player: its current lane and its rendered x-coordinate
/// in centiunits (the tween value, a separate variable from the lane).
#[derive(Debug, Clone, Copy, PartialEq, Eq, Structural)]
pub struct Player {
    /// The authoritative discrete lane.
    pub current_lane: Lane,
    /// The continuously interpolated screen x-coordinate, in centiunits.
    pub rendered_x: i64,
}

/// The x-coordinate at the middle of a lane, in centiunits.
pub open spec fn target_x(lane: Lane, lane_size: int) -> int {
    lane_size * lane_offset(lane)
}

/// How far the rendered x-coordinate may ever stand from the field's
/// centre: within one lane width of the farthest target, plus one frame's
/// largest motion budget of overshoot.
pub open spec fn x_limit(lane_size: int) -> int {
    lane_size + PLAYER_SPEED_CU_PER_MS * MAX_DT_MS
}

/// Well-formedness of a player under a given lane width: the rendered
/// x-coordinate stays within [`x_limit`] of the centre.
pub open spec fn player_inv(p: Player, lane_size: int) -> bool {
    -x_limit(lane_size) <= p.rendered_x <= x_limit(lane_size)
}

/// The lane after one frame's input: right wins over left when both are
/// pressed, and at most one step is taken per frame.
pub open spec fn lane_after_input(lane: Lane, input: FrameInput) -> Lane {
    if input.move_right {
        lane_step(lane, Lane::Right)
    } else if input.move_left {
        lane_step(lane, Lane::Left)
    } else {
        lane
    }
}

/// The rendered x-coordinate after one tween step of `dt` milliseconds
/// toward `target`: a snap exactly onto the target inside the dead zone,
/// otherwise a constant-velocity move of the full frame budget toward it.
pub open spec fn tweened_x(x: int, target: int, dt: int) -> int {
    if -SNAP_EPSILON_CU <= x - target <= SNAP_EPSILON_CU {
        target
    } else if x > target {
        x - PLAYER_SPEED_CU_PER_MS * dt
    } else {
        x + PLAYER_SPEED_CU_PER_MS * dt
    }
}

impl Player {
    /// A freshly created player: in the middle lane, rendered at the
    /// centre of the field.
    pub fn new() -> (p: Player)
        ensures
            p.current_lane == Lane::Middle,
            p.rendered_x == 0,
            forall|lane_size: int| 0 <= lane_size ==> player_inv(p, lane_size),
    {
        Player { current_lane: Lane::Middle, rendered_x: 0 }
    }

    /// Applies one frame's directional input to the discrete lane; the
    /// rendered position is untouched. Right is checked first, so
    /// simultaneous left and right resolve to right.
    pub fn apply_input(&mut self, input: FrameInput)
        ensures
            final(self).current_lane == lane_after_input(old(self).current_lane, input),
            final(self).rendered_x == old(self).rendered_x,
    {
        if input.move_right {
            self.current_lane = self.current_lane.step(Lane::Right);
        } else if input.move_left {
            self.current_lane = self.current_lane.step(Lane::Left);
        }
    }

    /// Advances the tween by `dt_ms` milliseconds toward the current
    /// lane's target x-coordinate `lane_size * offset(lane)`.
    pub fn advance(&mut self, lane_size: i64, dt_ms: u64)
        requires
            0 <= lane_size <= MAX_LANE_SIZE_CU,
            dt_ms <= MAX_DT_MS,
            player_inv(*old(self), lane_size as int),
        ensures
            final(self).current_lane == old(self).current_lane,
            final(self).rendered_x == tweened_x(
                old(self).rendered_x as int,
                target_x(old(self).current_lane, lane_size as int),
                dt_ms as int,
            ),
            player_inv(*final(self), lane_size as int),
    {
        let target: i64 = match self.current_lane {
            Lane::Left => -lane_size,
            Lane::Middle => 0,
            Lane::Right => lane_size,
        };
        let diff = self.rendered_x - target;
        if -SNAP_EPSILON_CU <= diff && diff <= SNAP_EPSILON_CU {
            self.rendered_x = target;
        } else {
            let budget = PLAYER_SPEED_CU_PER_MS * (dt_ms as i64);
            if diff > 0 {
                self.rendered_x = self.rendered_x - budget;
            } else {
                self.rendered_x = self.rendered_x + budget;
            }
        }
    }
}

/// One tween step never overshoots: afterwards the rendered
/// x-coordinate either sits exactly on the target, or stands nearer to
/// it than before, or within one frame's motion budget of it.
pub proof fn lemma_tween_overshoot_bounded(x: int, target: int, dt: int)
    requires
        0 < dt,
    ensures
        tweened_x(x, target, dt) == target || vstd::math::abs(tweened_x(x, target, dt) - target)
            < vstd::math::abs(x - target) || vstd::math::abs(tweened_x(x, target, dt) - target)
            <= PLAYER_SPEED_CU_PER_MS * dt,
{
}

/// The tween is idempotent at rest: once the rendered x-coordinate equals
/// the target exactly, every further step with the player stationary
/// keeps it exactly there, whatever the frame's elapsed time.
pub proof fn lemma_tween_idempotent_at_rest(x: int, target: int, dt: int)
    requires
        x == target,
    ensures
        tweened_x(x, target, dt) == target,
{
}

} // verus!
