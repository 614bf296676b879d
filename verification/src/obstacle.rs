//! Obstacles: transient entities fixed to a lane at spawn time, whose
//! vertical position falls at a constant rate every frame. Nothing ever
//! removes them: the game has no despawn or collision rule, so they
//! accumulate off-screen.

use vstd::prelude::*;

use crate::lane::{lane_from_offset, Lane};
use crate::player::target_x;
use crate::{MAX_DT_MS, MAX_LANE_SIZE_CU, OBSTACLE_SPEED_CU_PER_MS, SPAWN_Y_CU};

verus! {

/// A single obstacle: its lane, fixed at spawn and used only to place
/// it, and its position in centiunits.
#[derive(Debug, Clone, Copy, PartialEq, Eq, Structural)]
pub struct Obstacle {
    /// The lane the obstacle was spawned in.
    pub lane: Lane,
    /// Horizontal position, fixed at spawn: the lane's target x.
    pub x: i64,
    /// Vertical position; falls every frame.
    pub y: i64,
}

/// Whether every obstacle of `obs` has room to fall for one more frame of
/// `dt` milliseconds without leaving `i64`.
pub open spec fn can_fall(obs: Seq<Obstacle>, dt: int) -> bool {
    forall|i: int|
        0 <= i < obs.len() ==> obs[i].y - OBSTACLE_SPEED_CU_PER_MS * dt >= i64::MIN
}

/// An obstacle of `obs` after falling for `dt` milliseconds: the lane and
/// the horizontal position are untouched.
pub open spec fn fallen(o: Obstacle, dt: int) -> Obstacle {
    Obstacle { lane: o.lane, x: o.x, y: (o.y - OBSTACLE_SPEED_CU_PER_MS * dt) as i64 }
}

impl Obstacle {
    /// A new obstacle for the lane derived from a signed offset, placed
    /// at that lane's target x-coordinate and at the spawn height.
    pub fn spawn(lane_size: i64, offset: i8) -> (o: Obstacle)
        requires
            0 <= lane_size <= MAX_LANE_SIZE_CU,
        ensures
            o.lane == lane_from_offset(offset as int),
            o.x == target_x(o.lane, lane_size as int),
            o.y == SPAWN_Y_CU,
    {
        let lane = Lane::from_offset(offset);
        let x: i64 = match lane {
            Lane::Left => -lane_size,
            Lane::Middle => 0,
            Lane::Right => lane_size,
        };
        Obstacle { lane, x, y: SPAWN_Y_CU }
    }
}

/// Moves every live obstacle down by exactly `OBSTACLE_SPEED_CU_PER_MS *
/// dt_ms` centiunits, independent of its lane or spawn time; nothing else
/// about any obstacle changes, and none is added or removed.
pub fn advance_obstacles(obstacles: &mut Vec<Obstacle>, dt_ms: u64)
    requires
        dt_ms <= MAX_DT_MS,
        can_fall(old(obstacles)@, dt_ms as int),
    ensures
        final(obstacles)@.len() == old(obstacles)@.len(),
        forall|i: int|
            0 <= i < old(obstacles)@.len() ==> final(obstacles)@[i] == fallen(
                old(obstacles)@[i],
                dt_ms as int,
            ),
{
    let drop = OBSTACLE_SPEED_CU_PER_MS * (dt_ms as i64);
    let n = obstacles.len();
    let mut i: usize = 0;
    while i < n
        invariant
            i <= n,
            n == obstacles@.len(),
            n == old(obstacles)@.len(),
            drop == OBSTACLE_SPEED_CU_PER_MS * dt_ms,
            can_fall(old(obstacles)@, dt_ms as int),
            forall|j: int| 0 <= j < i ==> obstacles@[j] == fallen(old(obstacles)@[j], dt_ms as int),
            forall|j: int| i <= j < n ==> obstacles@[j] == old(obstacles)@[j],
        decreases n - i,
    {
        let o = obstacles[i];
        obstacles[i] = Obstacle { lane: o.lane, x: o.x, y: o.y - drop };
        i = i + 1;
    }
}

} // verus!
