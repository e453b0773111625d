//! The session's entities and the per-frame systems that run on them:
//! the player-controlled ship, the enemy roster, keyboard-driven player
//! movement, enemy movement, and clamping to the invisible level bounds.

use vstd::prelude::*;
use crate::math::{Transform2, Vec2, DT_LIMIT, SPEED_LIMIT};
use crate::movement::{
    Movement, movement_delta, movement_delta_exec, movement_intent_of, next_orientation,
    rotation_intent_of, turned_angle,
};
use crate::collision::{Health, STARTING_HEALTH};

verus! {

/// Width of the play area, in micro-units.
pub const BOUNDS_X: i64 = 1_200_000_000;

/// Height of the play area, in micro-units.
pub const BOUNDS_Y: i64 = 640_000_000;

/// Steering behavior of an enemy. The behaviors are mutually
/// exclusive: an enemy either snaps to face the player instantly or
/// turns toward the player at the given angular speed, never both.
#[derive(Clone, Copy, PartialEq, Eq, Structural, Debug)]
pub enum Steering {
    SnapToPlayer,
    RotateToPlayer { rotation_speed: i64 },
}

impl Steering {
    /// A rate-limited steering speed is within the speed limit.
    pub open spec fn wf(self) -> bool {
        match self {
            Steering::SnapToPlayer => true,
            Steering::RotateToPlayer { rotation_speed } => 0 <= rotation_speed <= SPEED_LIMIT,
        }
    }
}

/// The player-controlled ship: its spatial state, speed parameters and
/// remaining health.
#[derive(Clone, Copy, PartialEq, Eq, Structural, Debug)]
pub struct PlayerState {
    pub transform: Transform2,
    pub movement: Movement,
    pub health: Health,
}

impl PlayerState {
    pub open spec fn wf(self) -> bool {
        self.transform.wf() && self.movement.wf()
    }
}

/// One enemy ship: its spatial state, linear speed, steering behavior,
/// and whether it carries the enemy tag that makes it collide with the
/// player.
#[derive(Clone, Copy, PartialEq, Eq, Structural, Debug)]
pub struct EnemyState {
    pub transform: Transform2,
    pub movement_speed: i64,
    pub steering: Steering,
    pub enemy: bool,
}

impl EnemyState {
    pub open spec fn wf(self) -> bool {
        self.transform.wf() && 0 <= self.movement_speed <= SPEED_LIMIT && self.steering.wf()
    }
}

/// The whole session state: one player and the enemy roster.
pub struct GameState {
    pub player: PlayerState,
    pub enemies: Vec<EnemyState>,
}

/// One coordinate clamped to `[-extent, extent]`.
pub open spec fn clamp_coord(p: int, extent: int) -> int {
    if p > extent {
        extent
    } else if p < -extent {
        -extent
    } else {
        p
    }
}

/// Clamps one coordinate to `[-extent, extent]`: the result never
/// exceeds the extent on either side.
pub fn clamp_coord_exec(p: i64, extent: i64) -> (r: i64)
    requires
        0 <= extent,
        i64::MIN < p,
    ensures
        r == clamp_coord(p as int, extent as int),
        -extent <= r <= extent,
{
    if p > extent {
        extent
    } else if p < -extent {
        -extent
    } else {
        p
    }
}

/// The initial session: the player ship at the origin at full health,
/// two snap-to-player enemies on the left and bottom quarter margins,
/// and two rotate-to-player enemies on the right and top ones. Every
/// enemy participates in collision.
pub fn setup() -> (g: GameState)
    ensures
        g.player.transform == (Transform2 { position: Vec2 { x: 0, y: 0 }, orientation: 0 }),
        g.player.movement == (Movement { movement_speed: 500, rotation_speed: 360 }),
        g.player.health.value == STARTING_HEALTH,
        g.player.wf(),
        g.enemies@.len() == 4,
        g.enemies@[0] == (EnemyState {
            transform: Transform2 { position: Vec2 { x: (-BOUNDS_X / 4) as i64, y: 0 }, orientation: 0 },
            movement_speed: 100,
            steering: Steering::SnapToPlayer,
            enemy: true,
        }),
        g.enemies@[1] == (EnemyState {
            transform: Transform2 { position: Vec2 { x: 0, y: (-BOUNDS_Y / 4) as i64 }, orientation: 0 },
            movement_speed: 160,
            steering: Steering::SnapToPlayer,
            enemy: true,
        }),
        g.enemies@[2] == (EnemyState {
            transform: Transform2 { position: Vec2 { x: (BOUNDS_X / 4) as i64, y: 0 }, orientation: 0 },
            movement_speed: 100,
            steering: (Steering::RotateToPlayer { rotation_speed: 45 }),
            enemy: true,
        }),
        g.enemies@[3] == (EnemyState {
            transform: Transform2 { position: Vec2 { x: 0, y: (BOUNDS_Y / 4) as i64 }, orientation: 0 },
            movement_speed: 200,
            steering: (Steering::RotateToPlayer { rotation_speed: 90 }),
            enemy: true,
        }),
        forall|i: int| 0 <= i < g.enemies@.len() ==> (#[trigger] g.enemies@[i]).wf(),
{
    let horizontal_margin = BOUNDS_X / 4;
    let vertical_margin = BOUNDS_Y / 4;

    let player = PlayerState {
        transform: Transform2 { position: Vec2 { x: 0, y: 0 }, orientation: 0 },
        movement: Movement { movement_speed: 500, rotation_speed: 360 },
        health: Health { value: STARTING_HEALTH },
    };

    let mut enemies: Vec<EnemyState> = Vec::new();
    enemies.push(EnemyState {
        transform: Transform2 {
            position: Vec2 { x: 0 - horizontal_margin, y: 0 },
            orientation: 0,
        },
        movement_speed: 100,
        steering: Steering::SnapToPlayer,
        enemy: true,
    });
    enemies.push(EnemyState {
        transform: Transform2 { position: Vec2 { x: 0, y: 0 - vertical_margin }, orientation: 0 },
        movement_speed: 160,
        steering: Steering::SnapToPlayer,
        enemy: true,
    });
    enemies.push(EnemyState {
        transform: Transform2 {
            position: Vec2 { x: 0 + horizontal_margin, y: 0 },
            orientation: 0,
        },
        movement_speed: 100,
        steering: Steering::RotateToPlayer { rotation_speed: 45 },
        enemy: true,
    });
    enemies.push(EnemyState {
        transform: Transform2 { position: Vec2 { x: 0, y: 0 + vertical_margin }, orientation: 0 },
        movement_speed: 200,
        steering: Steering::RotateToPlayer { rotation_speed: 90 },
        enemy: true,
    });

    GameState { player, enemies }
}

/// Applies keyboard-driven rotation and movement to the player ship and
/// bounds it within the invisible level bounds.
///
/// `forward` is the unit forward vector of the orientation the ship
/// turns to this frame (see `next_orientation`), at the `DIR_ONE`
/// scale; the caller owns the trigonometry.
pub fn player_movement_system(
    player: &mut PlayerState,
    up: bool,
    left: bool,
    right: bool,
    forward: Vec2,
    dt: i64,
)
    requires
        old(player).wf(),
        forward.is_dir(),
        0 <= dt <= DT_LIMIT,
    ensures
        final(player).transform.orientation == turned_angle(
            old(player).transform.orientation as int,
            rotation_intent_of(left, right),
            old(player).movement.rotation_speed as int,
            dt as int,
        ),
        final(player).transform.position.x == clamp_coord(
            old(player).transform.position.x + movement_delta(
                forward.x as int,
                movement_intent_of(up),
                old(player).movement.movement_speed as int,
                dt as int,
            ),
            BOUNDS_X / 2,
        ),
        final(player).transform.position.y == clamp_coord(
            old(player).transform.position.y + movement_delta(
                forward.y as int,
                movement_intent_of(up),
                old(player).movement.movement_speed as int,
                dt as int,
            ),
            BOUNDS_Y / 2,
        ),
        final(player).movement == old(player).movement,
        final(player).health == old(player).health,
        final(player).wf(),
{
    let mut rotation_factor: i64 = 0;
    let mut movement_factor: i64 = 0;

    if left {
        rotation_factor += 1;
    }
    if right {
        rotation_factor -= 1;
    }
    if up {
        movement_factor += 1;
    }

    player.transform.orientation = next_orientation(
        player.transform.orientation,
        rotation_factor,
        player.movement.rotation_speed,
        dt,
    );

    let dx = movement_delta_exec(forward.x, movement_factor, player.movement.movement_speed, dt);
    let dy = movement_delta_exec(forward.y, movement_factor, player.movement.movement_speed, dt);
    player.transform.position.x = clamp_coord_exec(player.transform.position.x + dx, BOUNDS_X / 2);
    player.transform.position.y = clamp_coord_exec(player.transform.position.y + dy, BOUNDS_Y / 2);
}

/// Advances an enemy ship along its forward vector at its own speed and
/// bounds it within the invisible level bounds. The orientation is
/// untouched.
///
/// `forward` is the unit forward vector of the enemy's current
/// orientation, at the `DIR_ONE` scale, supplied by the caller.
pub fn enemy_movement_system(enemy: &mut EnemyState, forward: Vec2, dt: i64)
    requires
        old(enemy).wf(),
        forward.is_dir(),
        0 <= dt <= DT_LIMIT,
    ensures
        final(enemy).transform.orientation == old(enemy).transform.orientation,
        final(enemy).transform.position.x == clamp_coord(
            old(enemy).transform.position.x + movement_delta(
                forward.x as int,
                1,
                old(enemy).movement_speed as int,
                dt as int,
            ),
            BOUNDS_X / 2,
        ),
        final(enemy).transform.position.y == clamp_coord(
            old(enemy).transform.position.y + movement_delta(
                forward.y as int,
                1,
                old(enemy).movement_speed as int,
                dt as int,
            ),
            BOUNDS_Y / 2,
        ),
        final(enemy).movement_speed == old(enemy).movement_speed,
        final(enemy).steering == old(enemy).steering,
        final(enemy).enemy == old(enemy).enemy,
        final(enemy).wf(),
{
    let dx = movement_delta_exec(forward.x, 1, enemy.movement_speed, dt);
    let dy = movement_delta_exec(forward.y, 1, enemy.movement_speed, dt);
    enemy.transform.position.x = clamp_coord_exec(enemy.transform.position.x + dx, BOUNDS_X / 2);
    enemy.transform.position.y = clamp_coord_exec(enemy.transform.position.y + dy, BOUNDS_Y / 2);
}

} // verus!
