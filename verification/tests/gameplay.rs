//! Concrete-value tests of the gameplay systems. Units: positions in
//! micro-units, linear speeds in milli-units per millisecond, angles in
//! millidegrees, angular speeds in millidegrees per millisecond, frame
//! times in milliseconds.

use arcade_core::collision::{collision_system, Health, COLLISION_DISTANCE, STARTING_HEALTH};
use arcade_core::game::{
    clamp_coord_exec, enemy_movement_system, player_movement_system, setup, EnemyState, Steering,
    BOUNDS_X, BOUNDS_Y,
};
use arcade_core::math::{
    angle_diff_exec, closer_than, normalize_angle, Transform2, Vec2, FULL_TURN, HALF_TURN,
};
use arcade_core::movement::{
    apply_movement, movement_update, record_movement_controller, tick_step_sfx, trigger_step_sfx,
    wrap_within_window, Movement, MovementController, Sfx, StepSfx, WRAP_MARGIN,
};
use arcade_core::spawn::{
    make_enemy, scale_random, spawn_enemy_system, tick_repeating, GameEventPlugin, RepeatingTimer,
    ENEMY_SPEED_MAX, ENEMY_SPEED_MIN, ENEMY_TURN_MAX, ENEMY_TURN_MIN, SPAWN_PERIOD,
};
use arcade_core::steering::{rotate_to_player_system, snap_to_player_system};

fn controller(movement_intent: i64, rotation_intent: i64) -> MovementController {
    let mut c = MovementController::default();
    record_movement_controller(
        &mut c,
        movement_intent != 0,
        rotation_intent > 0,
        rotation_intent < 0,
    );
    c
}

#[test]
fn record_controller_maps_keys_to_intent() {
    let mut c = MovementController::default();
    assert_eq!(c.movement_intent, 0);
    assert_eq!(c.rotation_intent, 0);

    record_movement_controller(&mut c, true, true, false);
    assert_eq!(c.movement_intent, 1);
    assert_eq!(c.rotation_intent, 1);

    record_movement_controller(&mut c, false, false, true);
    assert_eq!(c.movement_intent, 0);
    assert_eq!(c.rotation_intent, -1);

    record_movement_controller(&mut c, true, true, true);
    assert_eq!(c.movement_intent, 1);
    assert_eq!(c.rotation_intent, 0);
}

#[test]
fn movement_advances_proportionally_to_dt_and_intent() {
    // 500 milli-units/ms for 16 ms straight up: 8 units.
    let movement = Movement { movement_speed: 500, rotation_speed: 360 };
    let forward = Vec2 { x: 0, y: 1000 };
    let mut t = Transform2 { position: Vec2 { x: 0, y: 0 }, orientation: 0 };
    apply_movement(&controller(1, 0), &movement, &mut t, forward, 16);
    assert_eq!(t.position, Vec2 { x: 0, y: 8_000_000 });

    // Twice the frame time, twice the delta.
    let mut t2 = Transform2 { position: Vec2 { x: 0, y: 0 }, orientation: 0 };
    apply_movement(&controller(1, 0), &movement, &mut t2, forward, 32);
    assert_eq!(t2.position, Vec2 { x: 0, y: 16_000_000 });
}

#[test]
fn movement_zero_dt_moves_nothing() {
    let movement = Movement { movement_speed: 500, rotation_speed: 360 };
    let forward = Vec2 { x: 0, y: 1000 };
    let mut t = Transform2 { position: Vec2 { x: 123, y: 456 }, orientation: 9_000 };
    apply_movement(&controller(1, 1), &movement, &mut t, forward, 0);
    assert_eq!(t.position, Vec2 { x: 123, y: 456 });
    assert_eq!(t.orientation, 9_000);
}

#[test]
fn movement_zero_intent_moves_nothing() {
    let movement = Movement { movement_speed: 500, rotation_speed: 360 };
    let forward = Vec2 { x: 0, y: 1000 };
    let mut t = Transform2 { position: Vec2 { x: 5, y: 6 }, orientation: 0 };
    apply_movement(&controller(0, 0), &movement, &mut t, forward, 16);
    assert_eq!(t.position, Vec2 { x: 5, y: 6 });
    assert_eq!(t.orientation, 0);
}

#[test]
fn movement_turns_by_angular_speed_times_dt() {
    // 360 millidegrees/ms for 16 ms turning left: 5.76 degrees.
    let movement = Movement { movement_speed: 500, rotation_speed: 360 };
    let mut t = Transform2 { position: Vec2 { x: 0, y: 0 }, orientation: 0 };
    apply_movement(&controller(0, 1), &movement, &mut t, Vec2 { x: 0, y: 1000 }, 16);
    assert_eq!(t.orientation, 5_760);

    // Turning right wraps below zero.
    let mut t2 = Transform2 { position: Vec2 { x: 0, y: 0 }, orientation: 0 };
    apply_movement(&controller(0, -1), &movement, &mut t2, Vec2 { x: 0, y: 1000 }, 16);
    assert_eq!(t2.orientation, FULL_TURN - 5_760);
}

#[test]
fn wrap_maps_into_recentered_window() {
    // Window plus margin: 1_000 units; half size 500 units.
    let window = Vec2 { x: 1_000_000_000 - WRAP_MARGIN, y: 1_000_000_000 - WRAP_MARGIN };
    let mut t = Transform2 { position: Vec2 { x: 600_000_000, y: -600_000_000 }, orientation: 0 };
    wrap_within_window(&mut t, window);
    assert_eq!(t.position, Vec2 { x: -400_000_000, y: 400_000_000 });
}

#[test]
fn wrap_keeps_in_range_position() {
    let window = Vec2 { x: 1_000_000_000 - WRAP_MARGIN, y: 1_000_000_000 - WRAP_MARGIN };
    let mut t = Transform2 { position: Vec2 { x: 499_999_999, y: -500_000_000 }, orientation: 0 };
    wrap_within_window(&mut t, window);
    assert_eq!(t.position, Vec2 { x: 499_999_999, y: -500_000_000 });
}

#[test]
fn wrap_twice_is_wrap_once() {
    let window = Vec2 { x: 950_000_000, y: 650_000_000 };
    let mut t = Transform2 { position: Vec2 { x: 987_654_321, y: -876_543_210 }, orientation: 0 };
    wrap_within_window(&mut t, window);
    let once = t.position;
    wrap_within_window(&mut t, window);
    assert_eq!(t.position, once);
}

#[test]
fn clamp_never_exceeds_extent() {
    assert_eq!(clamp_coord_exec(700_000_000, 600_000_000), 600_000_000);
    assert_eq!(clamp_coord_exec(-700_000_000, 600_000_000), -600_000_000);
    assert_eq!(clamp_coord_exec(123_456, 600_000_000), 123_456);
    assert_eq!(clamp_coord_exec(-600_000_000, 600_000_000), -600_000_000);
}

#[test]
fn player_movement_clamps_at_level_bounds() {
    let mut player = setup().player;
    player.transform.position.x = BOUNDS_X / 2;
    // Heading right at full speed: stays pinned at the bound.
    player_movement_system(&mut player, true, false, false, Vec2 { x: 1000, y: 0 }, 16);
    assert_eq!(player.transform.position.x, BOUNDS_X / 2);
    assert_eq!(player.transform.position.y, 0);
}

#[test]
fn enemy_movement_advances_and_clamps() {
    let mut e = EnemyState {
        transform: Transform2 { position: Vec2 { x: 0, y: 0 }, orientation: 0 },
        movement_speed: 100,
        steering: Steering::SnapToPlayer,
        enemy: true,
    };
    enemy_movement_system(&mut e, Vec2 { x: 0, y: 1000 }, 16);
    assert_eq!(e.transform.position, Vec2 { x: 0, y: 1_600_000 });

    e.transform.position.y = BOUNDS_Y / 2;
    enemy_movement_system(&mut e, Vec2 { x: 0, y: 1000 }, 16);
    assert_eq!(e.transform.position.y, BOUNDS_Y / 2);
}

#[test]
fn angle_diff_picks_shortest_rotation() {
    assert_eq!(angle_diff_exec(90_000, 0), 90_000);
    assert_eq!(angle_diff_exec(270_000, 0), -90_000);
    assert_eq!(angle_diff_exec(180_000, 0), -HALF_TURN);
    assert_eq!(angle_diff_exec(0, 350_000), 10_000);
    assert_eq!(angle_diff_exec(42_000, 42_000), 0);
}

#[test]
fn normalize_angle_wraps_into_full_turn() {
    assert_eq!(normalize_angle(-5_760), FULL_TURN - 5_760);
    assert_eq!(normalize_angle(FULL_TURN + 1), 1);
    assert_eq!(normalize_angle(359_999), 359_999);
}

#[test]
fn snap_faces_player_immediately() {
    let mut t = Transform2 { position: Vec2 { x: 7, y: 8 }, orientation: 123_000 };
    snap_to_player_system(&mut t, 271_000);
    assert_eq!(t.orientation, 271_000);
    assert_eq!(t.position, Vec2 { x: 7, y: 8 });
}

#[test]
fn rotate_turns_by_budget_toward_player() {
    // 45 millidegrees/ms for 1000 ms: 45 degrees of a 90-degree gap.
    let mut t = Transform2 { position: Vec2 { x: 0, y: 0 }, orientation: 0 };
    rotate_to_player_system(&mut t, 45, 90_000, 1_000);
    assert_eq!(t.orientation, 45_000);
}

#[test]
fn rotate_never_overshoots_facing_angle() {
    // Budget 180 degrees, gap 90: stops exactly at the facing angle.
    let mut t = Transform2 { position: Vec2 { x: 0, y: 0 }, orientation: 0 };
    rotate_to_player_system(&mut t, 45, 90_000, 4_000);
    assert_eq!(t.orientation, 90_000);

    // Another frame from there does not move past it.
    rotate_to_player_system(&mut t, 45, 90_000, 4_000);
    assert_eq!(t.orientation, 90_000);
}

#[test]
fn rotate_already_facing_is_a_no_op() {
    let mut t = Transform2 { position: Vec2 { x: 3, y: 4 }, orientation: 33_000 };
    rotate_to_player_system(&mut t, 90, 33_000, 4_000);
    assert_eq!(t.orientation, 33_000);
    assert_eq!(t.position, Vec2 { x: 3, y: 4 });
}

#[test]
fn rotate_turns_clockwise_across_the_wrap() {
    // Player 10 degrees clockwise of the enemy's facing, across zero.
    let mut t = Transform2 { position: Vec2 { x: 0, y: 0 }, orientation: 0 };
    rotate_to_player_system(&mut t, 45, 350_000, 100);
    assert_eq!(t.orientation, 355_500);
}

#[test]
fn closer_than_is_strict() {
    let origin = Vec2 { x: 0, y: 0 };
    assert!(closer_than(origin, Vec2 { x: 29_999_999, y: 0 }, COLLISION_DISTANCE));
    assert!(!closer_than(origin, Vec2 { x: COLLISION_DISTANCE, y: 0 }, COLLISION_DISTANCE));
    assert!(!closer_than(origin, Vec2 { x: 30_000_001, y: 0 }, COLLISION_DISTANCE));
}

#[test]
fn collision_damages_once_per_qualifying_enemy() {
    let mut health = Health { value: STARTING_HEALTH };
    let player = Vec2 { x: 0, y: 0 };
    // One enemy within the threshold, one outside it.
    let enemies = vec![Vec2 { x: 20_000_000, y: 0 }, Vec2 { x: 40_000_000, y: 0 }];
    let (reports, defeated) = collision_system(&mut health, player, &enemies);
    assert_eq!(health.value, 90);
    assert_eq!(reports, vec![90]);
    assert!(!defeated);
}

#[test]
fn collision_damage_stacks_across_simultaneous_enemies() {
    let mut health = Health { value: STARTING_HEALTH };
    let player = Vec2 { x: 0, y: 0 };
    let enemies = vec![Vec2 { x: 10_000_000, y: 0 }, Vec2 { x: 0, y: 10_000_000 }];
    let (reports, defeated) = collision_system(&mut health, player, &enemies);
    assert_eq!(health.value, 80);
    assert_eq!(reports, vec![90, 80]);
    assert!(!defeated);
}

#[test]
fn collision_stops_at_the_defeating_hit() {
    let mut health = Health { value: 15 };
    let player = Vec2 { x: 0, y: 0 };
    let near = Vec2 { x: 1_000_000, y: 0 };
    let enemies = vec![near, near, near];
    let (reports, defeated) = collision_system(&mut health, player, &enemies);
    assert_eq!(health.value, -5);
    assert_eq!(reports, vec![5, -5]);
    assert!(defeated);
}

#[test]
fn ten_collision_frames_defeat_full_health() {
    let mut health = Health { value: STARTING_HEALTH };
    let player = Vec2 { x: 0, y: 0 };
    let enemies = vec![Vec2 { x: 0, y: 0 }];
    for frame in 1..=10i64 {
        let (reports, defeated) = collision_system(&mut health, player, &enemies);
        assert_eq!(health.value, STARTING_HEALTH - 10 * frame);
        assert_eq!(reports, vec![STARTING_HEALTH - 10 * frame]);
        assert_eq!(defeated, frame == 10);
    }
    assert_eq!(health.value, 0);
}

#[test]
fn step_sfx_cues_only_when_moving_and_cooled_down() {
    let mut step = StepSfx::new(500);
    let moving = controller(1, 0);
    let still = controller(0, 0);

    // The timer starts finished, but a still entity never cues.
    assert_eq!(trigger_step_sfx(&still, &mut step), None);

    // Moving with a finished timer cues and resets the cooldown.
    assert_eq!(trigger_step_sfx(&moving, &mut step), Some(Sfx::Step));
    assert_eq!(trigger_step_sfx(&moving, &mut step), None);

    // Half the cooldown is not enough; completing it is.
    tick_step_sfx(&mut step, 250);
    assert_eq!(trigger_step_sfx(&moving, &mut step), None);
    tick_step_sfx(&mut step, 250);
    assert_eq!(trigger_step_sfx(&moving, &mut step), Some(Sfx::Step));
}

#[test]
fn movement_update_runs_the_frame_in_order() {
    let mut c = MovementController::default();
    let movement = Movement { movement_speed: 500, rotation_speed: 360 };
    let mut t = Transform2 { position: Vec2 { x: 0, y: 0 }, orientation: 0 };
    let mut step = StepSfx::new(500);
    let window = Vec2 { x: 950_000_000, y: 650_000_000 };

    let cue = movement_update(
        &mut c,
        &movement,
        &mut t,
        &mut step,
        true,
        false,
        false,
        Vec2 { x: 0, y: 1000 },
        window,
        16,
    );
    assert_eq!(cue, Some(Sfx::Step));
    assert_eq!(t.position, Vec2 { x: 0, y: 8_000_000 });
    assert_eq!(t.orientation, 0);
    assert_eq!(c.movement_intent, 1);

    // The cooldown just reset: the next frame moves but stays silent.
    let cue2 = movement_update(
        &mut c,
        &movement,
        &mut t,
        &mut step,
        true,
        false,
        false,
        Vec2 { x: 0, y: 1000 },
        window,
        16,
    );
    assert_eq!(cue2, None);
    assert_eq!(t.position, Vec2 { x: 0, y: 16_000_000 });
}

#[test]
fn setup_builds_the_initial_roster() {
    let g = setup();
    assert_eq!(g.player.transform.position, Vec2 { x: 0, y: 0 });
    assert_eq!(g.player.transform.orientation, 0);
    assert_eq!(g.player.movement, Movement { movement_speed: 500, rotation_speed: 360 });
    assert_eq!(g.player.health.value, 100);

    assert_eq!(g.enemies.len(), 4);
    assert_eq!(g.enemies[0].transform.position, Vec2 { x: -BOUNDS_X / 4, y: 0 });
    assert_eq!(g.enemies[0].steering, Steering::SnapToPlayer);
    assert_eq!(g.enemies[0].movement_speed, 100);
    assert!(g.enemies[0].enemy);
    assert_eq!(g.enemies[1].transform.position, Vec2 { x: 0, y: -BOUNDS_Y / 4 });
    assert_eq!(g.enemies[1].movement_speed, 160);
    assert_eq!(g.enemies[2].steering, Steering::RotateToPlayer { rotation_speed: 45 });
    assert_eq!(g.enemies[2].transform.position, Vec2 { x: BOUNDS_X / 4, y: 0 });
    assert_eq!(g.enemies[3].steering, Steering::RotateToPlayer { rotation_speed: 90 });
    assert!(g.enemies[3].enemy);
}

#[test]
fn spawn_timer_fires_every_period() {
    let mut timer = GameEventPlugin.build();
    assert_eq!(timer.duration, SPAWN_PERIOD);
    assert!(!tick_repeating(&mut timer, 1_999));
    assert!(tick_repeating(&mut timer, 1));
    assert_eq!(timer.elapsed, 0);
    assert!(tick_repeating(&mut timer, 3_000));
    assert_eq!(timer.elapsed, 1_000);
}

#[test]
fn scale_random_lands_in_range() {
    assert_eq!(scale_random(0, 50, 300), 50);
    assert_eq!(scale_random(249, 50, 300), 299);
    assert_eq!(scale_random(250, 50, 300), 50);
    assert_eq!(scale_random(u64::MAX, -5, 5), -5 + (u64::MAX % 10) as i64);
}

#[test]
fn make_enemy_maps_draws_to_spawn_parameters() {
    let e = make_enemy(0, 1, 2, 3);
    assert_eq!(e.transform.position, Vec2 { x: -BOUNDS_X / 2, y: -BOUNDS_Y / 2 + 1 });
    assert_eq!(e.transform.orientation, 0);
    assert_eq!(e.movement_speed, ENEMY_SPEED_MIN + 2);
    assert_eq!(e.steering, Steering::RotateToPlayer { rotation_speed: ENEMY_TURN_MIN + 3 });
    assert!(e.enemy);
}

#[test]
fn spawn_system_spawns_within_the_play_bounds() {
    let mut timer = RepeatingTimer { elapsed: 0, duration: SPAWN_PERIOD };
    assert!(spawn_enemy_system(&mut timer, 100).is_none());

    let spawned = spawn_enemy_system(&mut timer, SPAWN_PERIOD).expect("the period elapsed");
    assert!(-BOUNDS_X / 2 <= spawned.transform.position.x && spawned.transform.position.x < BOUNDS_X / 2);
    assert!(-BOUNDS_Y / 2 <= spawned.transform.position.y && spawned.transform.position.y < BOUNDS_Y / 2);
    assert_eq!(spawned.transform.orientation, 0);
    assert!(ENEMY_SPEED_MIN <= spawned.movement_speed && spawned.movement_speed < ENEMY_SPEED_MAX);
    match spawned.steering {
        Steering::RotateToPlayer { rotation_speed } => {
            assert!(ENEMY_TURN_MIN <= rotation_speed && rotation_speed < ENEMY_TURN_MAX);
        }
        Steering::SnapToPlayer => panic!("a spawned enemy rotates to the player"),
    }
    assert!(spawned.enemy);
}
