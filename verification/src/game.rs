//! The per-frame simulation step: one call advances the whole game by
//! one frame's elapsed time, in a fixed order — obstacles fall, the spawn
//! timer ticks and may create one obstacle in a uniformly random lane,
//! then the frame's input moves the player's lane before its tween step.

use vstd::prelude::*;

use crate::lane::Lane;
use crate::obstacle::{advance_obstacles, can_fall, fallen, Obstacle};
use crate::player::{
    lane_after_input, player_inv, target_x, tweened_x, FrameInput, Player,
};
use crate::timer::{ticked, timer_fires, timer_inv, SpawnTimer};
use crate::{MAX_DT_MS, MAX_LANE_SIZE_CU, SPAWN_PERIOD_MS, SPAWN_Y_CU};

verus! {

/// The whole simulation state for one session of play.
pub struct Game {
    /// Width of one lane in centiunits; one third of the field width.
    pub lane_size: i64,
    /// The singleton player.
    pub player: Player,
    /// The repeating spawn timer, running from game start.
    pub timer: SpawnTimer,
    /// Every live obstacle, in spawn order; never removed.
    pub obstacles: Vec<Obstacle>,
}

/// Well-formedness of the whole game state.
pub open spec fn game_inv(g: Game) -> bool {
    &&& 0 <= g.lane_size <= MAX_LANE_SIZE_CU
    &&& player_inv(g.player, g.lane_size as int)
    &&& timer_inv(g.timer)
}

/// Whether an obstacle stands where its lane puts a fresh spawn: at the
/// lane's target x-coordinate and at the spawn height.
pub open spec fn freshly_spawned(o: Obstacle, lane_size: int) -> bool {
    &&& o.x == target_x(o.lane, lane_size)
    &&& o.y == SPAWN_Y_CU
}

/// Relies on rand: `thread_rng().sample` over
/// `Uniform::new_inclusive(-1, 1)` returns a value inside the inclusive
/// range, each with equal probability. Only membership in the range is
/// stated, since no one outcome can be promised.
#[verifier::external_body]
fn draw_lane_offset() -> (r: i8)
    ensures
        -1 <= r <= 1,
{
    let lanes = rand::distributions::Uniform::new_inclusive(-1i8, 1i8);
    rand::Rng::sample(&mut rand::thread_rng(), lanes)
}

impl Game {
    /// A game at the moment of entering play: the player in the middle
    /// lane at the centre of the field, the spawn timer freshly started
    /// with its one-second period, and no obstacles.
    pub fn new(lane_size: i64) -> (g: Game)
        requires
            0 <= lane_size <= MAX_LANE_SIZE_CU,
        ensures
            g.lane_size == lane_size,
            g.player.current_lane == Lane::Middle,
            g.player.rendered_x == 0,
            g.timer.period_ms == SPAWN_PERIOD_MS,
            g.timer.elapsed_ms == 0,
            g.obstacles@.len() == 0,
            game_inv(g),
    {
        Game {
            lane_size,
            player: Player::new(),
            timer: SpawnTimer::new(SPAWN_PERIOD_MS),
            obstacles: Vec::new(),
        }
    }

    /// Runs one frame of `dt_ms` milliseconds with the frame's collapsed
    /// input: every obstacle falls by the frame's motion, the spawn timer
    /// ticks and — exactly when it completes its period, once per frame at
    /// most — one obstacle appears at the spawn height in one of the three
    /// lanes; the input then moves the player's lane before the tween
    /// step, so the tween already aims at the new lane. Returns whether
    /// an obstacle was spawned.
    pub fn frame(&mut self, dt_ms: u64, input: FrameInput) -> (spawned: bool)
        requires
            game_inv(*old(self)),
            dt_ms <= MAX_DT_MS,
            can_fall(old(self).obstacles@, dt_ms as int),
        ensures
            game_inv(*final(self)),
            final(self).lane_size == old(self).lane_size,
            spawned == timer_fires(old(self).timer, dt_ms as int),
            final(self).timer == ticked(old(self).timer, dt_ms as int),
            final(self).player.current_lane == lane_after_input(
                old(self).player.current_lane,
                input,
            ),
            final(self).player.rendered_x == tweened_x(
                old(self).player.rendered_x as int,
                target_x(
                    lane_after_input(old(self).player.current_lane, input),
                    old(self).lane_size as int,
                ),
                dt_ms as int,
            ),
            forall|i: int|
                0 <= i < old(self).obstacles@.len() ==> final(self).obstacles@[i] == fallen(
                    old(self).obstacles@[i],
                    dt_ms as int,
                ),
            spawned ==> final(self).obstacles@.len() == old(self).obstacles@.len() + 1
                && freshly_spawned(
                final(self).obstacles@[old(self).obstacles@.len() as int],
                old(self).lane_size as int,
            ),
            !spawned ==> final(self).obstacles@.len() == old(self).obstacles@.len(),
    {
        advance_obstacles(&mut self.obstacles, dt_ms);
        let fired = self.timer.tick(dt_ms);
        if fired {
            let offset = draw_lane_offset();
            let fresh = Obstacle::spawn(self.lane_size, offset);
            self.obstacles.push(fresh);
        }
        self.player.apply_input(input);
        self.player.advance(self.lane_size, dt_ms);
        fired
    }
}

} // verus!
