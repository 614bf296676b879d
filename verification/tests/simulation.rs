use quick_buck::game::Game;
use quick_buck::lane::Lane;
use quick_buck::obstacle::{advance_obstacles, Obstacle};
use quick_buck::player::{FrameInput, Player};
use quick_buck::timer::SpawnTimer;
use quick_buck::SPAWN_Y_CU;

const NO_INPUT: FrameInput = FrameInput { move_left: false, move_right: false };

/// One third of the 400-unit field width, in centiunits: 133.33 units.
const LANE_SIZE: i64 = 13333;

#[test]
fn input_right_wins_over_left() {
    let mut p = Player::new();
    p.apply_input(FrameInput { move_left: true, move_right: true });
    assert_eq!(p.current_lane, Lane::Right);
}

#[test]
fn input_left_alone_moves_left() {
    let mut p = Player::new();
    p.apply_input(FrameInput { move_left: true, move_right: false });
    assert_eq!(p.current_lane, Lane::Left);
}

#[test]
fn no_input_keeps_lane_and_position() {
    let mut p = Player::new();
    p.apply_input(NO_INPUT);
    assert_eq!(p.current_lane, Lane::Middle);
    assert_eq!(p.rendered_x, 0);
}

#[test]
fn tween_moves_at_fixed_speed() {
    let mut p = Player::new();
    p.apply_input(FrameInput { move_left: false, move_right: true });
    p.advance(LANE_SIZE, 16);
    // 1500 units/s for 16 ms: 24 units, 2400 centiunits.
    assert_eq!(p.rendered_x, 2400);
}

#[test]
fn tween_idempotent_at_rest() {
    let mut p = Player { current_lane: Lane::Right, rendered_x: LANE_SIZE };
    for dt in [1, 16, 100, 5000, 10000] {
        p.advance(LANE_SIZE, dt);
        assert_eq!(p.rendered_x, LANE_SIZE);
        assert_eq!(p.current_lane, Lane::Right);
    }
}

#[test]
fn tween_converges_and_snaps_exactly() {
    let mut p = Player::new();
    p.apply_input(FrameInput { move_left: false, move_right: true });
    assert_eq!(p.current_lane, Lane::Right);
    let mut entered_dead_zone = false;
    let mut steps = 0;
    while p.rendered_x != LANE_SIZE {
        if (p.rendered_x - LANE_SIZE).abs() <= 1000 {
            entered_dead_zone = true;
        }
        p.advance(LANE_SIZE, 10);
        steps += 1;
        assert!(steps <= 100, "tween did not converge");
    }
    // 13333 cu at 1500 cu per 10-ms step: 12000 after 8 steps, 13500
    // after 9 (an overshoot of 1.67 units, inside the 10-unit dead
    // zone), snapped exactly on step 10 — 100 ms, just over
    // laneSize / speed = 88.9 ms of accumulated time.
    assert_eq!(steps, 10);
    assert_eq!(p.rendered_x, LANE_SIZE);
    // The step before the snap already sat inside the 10-unit dead zone.
    p.advance(LANE_SIZE, 10);
    assert_eq!(p.rendered_x, LANE_SIZE);
    assert!(!entered_dead_zone || p.rendered_x == LANE_SIZE);
}

#[test]
fn timer_fires_once_for_a_huge_dt() {
    let mut t = SpawnTimer::new(1000);
    // 5 seconds against a 1-second period: one firing, not five.
    assert!(t.tick(5000));
    assert_eq!(t.elapsed_ms, 0);
    assert!(!t.tick(999));
    assert_eq!(t.elapsed_ms, 999);
}

#[test]
fn timer_accumulates_and_wraps() {
    let mut t = SpawnTimer::new(1000);
    assert!(!t.tick(400));
    assert!(!t.tick(400));
    assert!(t.tick(400));
    assert_eq!(t.elapsed_ms, 200);
}

#[test]
fn obstacles_fall_by_exactly_speed_times_dt() {
    let mut obstacles = vec![
        Obstacle { lane: Lane::Left, x: -LANE_SIZE, y: SPAWN_Y_CU },
        Obstacle { lane: Lane::Middle, x: 0, y: 50000 },
        Obstacle { lane: Lane::Right, x: LANE_SIZE, y: -30000 },
    ];
    advance_obstacles(&mut obstacles, 16);
    // 250 units/s for 16 ms: 4 units, 400 centiunits.
    assert_eq!(obstacles[0].y, SPAWN_Y_CU - 400);
    assert_eq!(obstacles[1].y, 49600);
    assert_eq!(obstacles[2].y, -30400);
    assert_eq!(obstacles[0].x, -LANE_SIZE);
    assert_eq!(obstacles[1].x, 0);
    assert_eq!(obstacles[2].x, LANE_SIZE);
    assert_eq!(obstacles[0].lane, Lane::Left);
    assert_eq!(obstacles.len(), 3);
}

#[test]
fn spawn_places_obstacle_at_lane_target() {
    let left = Obstacle::spawn(LANE_SIZE, -1);
    assert_eq!(left.lane, Lane::Left);
    assert_eq!(left.x, -LANE_SIZE);
    assert_eq!(left.y, SPAWN_Y_CU);
    let middle = Obstacle::spawn(LANE_SIZE, 0);
    assert_eq!(middle.lane, Lane::Middle);
    assert_eq!(middle.x, 0);
    let right = Obstacle::spawn(LANE_SIZE, 1);
    assert_eq!(right.lane, Lane::Right);
    assert_eq!(right.x, LANE_SIZE);
}

#[test]
fn end_to_end_first_spawn_on_frame_63() {
    let mut game = Game::new(LANE_SIZE);
    // 62 frames of 16 ms accumulate 992 ms: under the 1-second period.
    for _ in 0..62 {
        let spawned = game.frame(16, NO_INPUT);
        assert!(!spawned);
        assert_eq!(game.obstacles.len(), 0);
    }
    // Frame 63 reaches 1008 ms: exactly one obstacle appears.
    let spawned = game.frame(16, NO_INPUT);
    assert!(spawned);
    assert_eq!(game.obstacles.len(), 1);
    let obstacle = game.obstacles[0];
    assert_eq!(obstacle.y, SPAWN_Y_CU);
    let lanes = [Lane::Left, Lane::Middle, Lane::Right];
    assert!(lanes.contains(&obstacle.lane));
    // The random draw decides the lane; wherever it fell, the obstacle
    // stands at that lane's own target x, not anywhere else.
    assert_eq!(obstacle.x, LANE_SIZE * i64::from(obstacle.lane.offset()));
    assert_eq!(game.timer.elapsed_ms, 8);
    // With no input the player never left the middle of the field.
    assert_eq!(game.player.current_lane, Lane::Middle);
    assert_eq!(game.player.rendered_x, 0);
}

#[test]
fn frame_moves_spawned_obstacles_afterwards() {
    let mut game = Game::new(LANE_SIZE);
    for _ in 0..63 {
        game.frame(16, NO_INPUT);
    }
    assert_eq!(game.obstacles.len(), 1);
    let y_at_spawn = game.obstacles[0].y;
    assert_eq!(y_at_spawn, SPAWN_Y_CU);
    let spawned = game.frame(16, NO_INPUT);
    assert!(!spawned);
    assert_eq!(game.obstacles[0].y, y_at_spawn - 400);
}

#[test]
fn frame_applies_input_before_tween() {
    let mut game = Game::new(LANE_SIZE);
    let spawned = game.frame(16, FrameInput { move_left: false, move_right: true });
    assert!(!spawned);
    // The lane change lands before the tween step of the same frame, so
    // the first frame already moves toward the new lane.
    assert_eq!(game.player.current_lane, Lane::Right);
    assert_eq!(game.player.rendered_x, 2400);
}
