//! Periodic enemy spawning: a repeating timer fires every spawn period,
//! and each firing creates one rotate-to-player enemy at a random
//! position within the play bounds with randomized speed parameters.

use vstd::prelude::*;
use crate::game::{EnemyState, Steering, BOUNDS_X, BOUNDS_Y};
use crate::math::{Transform2, Vec2, DT_LIMIT};

verus! {

/// Time between enemy spawns, in milliseconds.
pub const SPAWN_PERIOD: i64 = 2_000;

/// Lowest randomized enemy speed, in milli-units per millisecond.
pub const ENEMY_SPEED_MIN: i64 = 50;

/// One past the highest randomized enemy speed.
pub const ENEMY_SPEED_MAX: i64 = 300;

/// Lowest randomized enemy turn rate, in millidegrees per millisecond.
pub const ENEMY_TURN_MIN: i64 = 60;

/// One past the highest randomized enemy turn rate.
pub const ENEMY_TURN_MAX: i64 = 360;

/// A repeating timer: `elapsed` advances with each tick and wraps
/// around `duration` when it completes. Times are in milliseconds.
#[derive(Clone, Copy, PartialEq, Eq, Structural, Debug)]
pub struct RepeatingTimer {
    pub elapsed: i64,
    pub duration: i64,
}

impl RepeatingTimer {
    /// The elapsed time stays below the positive duration.
    pub open spec fn wf(self) -> bool {
        0 <= self.elapsed < self.duration && self.duration <= DT_LIMIT
    }
}

/// Advances a repeating timer by one frame time and reports whether
/// that made it finish; a finished timer wraps its elapsed time around
/// the duration.
pub fn tick_repeating(timer: &mut RepeatingTimer, dt: i64) -> (just_finished: bool)
    requires
        old(timer).wf(),
        0 <= dt <= DT_LIMIT,
    ensures
        just_finished == (old(timer).elapsed + dt >= old(timer).duration),
        final(timer).elapsed == (old(timer).elapsed + dt) % (old(timer).duration as int),
        final(timer).duration == old(timer).duration,
        final(timer).wf(),
{
    let t = timer.elapsed + dt;
    if t >= timer.duration {
        timer.elapsed = t.checked_rem_euclid(timer.duration).unwrap();
        true
    } else {
        proof {
            vstd::arithmetic::div_mod::lemma_small_mod(t as nat, timer.duration as nat);
        }
        timer.elapsed = t;
        false
    }
}

/// Sets up the spawn schedule: a repeating timer that fires every
/// spawn period, starting from zero.
#[derive(Clone, Copy, PartialEq, Eq, Structural, Debug)]
pub struct GameEventPlugin;

impl GameEventPlugin {
    /// The spawn timer this plugin installs into a fresh session.
    pub fn build(&self) -> (t: RepeatingTimer)
        ensures
            t.elapsed == 0,
            t.duration == SPAWN_PERIOD,
            t.wf(),
    {
        RepeatingTimer { elapsed: 0, duration: SPAWN_PERIOD }
    }
}

/// Relies on rand::random: draws one value of any type the standard
/// distribution supports. The outcome is random, so nothing is promised
/// of it.
pub assume_specification<T>[ rand::random::<T> ]() -> (r: T)
    where
        rand::distributions::Standard: rand::distributions::Distribution<T>,
;

/// A random draw scaled into `[lo, hi)` by its remainder.
pub open spec fn scaled(r: u64, lo: int, hi: int) -> int {
    lo + (r as int) % (hi - lo)
}

/// Scales a random draw into `[lo, hi)`.
pub fn scale_random(r: u64, lo: i64, hi: i64) -> (v: i64)
    requires
        lo < hi,
        hi - lo <= i64::MAX,
    ensures
        v == scaled(r, lo as int, hi as int),
        lo <= v < hi,
{
    let span = (hi - lo) as u64;
    let m = r % span;
    lo + m as i64
}

/// Builds the enemy of one spawn from four random draws: a position
/// uniform over the play bounds, a speed in the randomized speed range,
/// and a rotate-to-player behavior with a turn rate in the randomized
/// turn range. The spawned enemy starts unrotated and carries the enemy
/// tag.
pub fn make_enemy(r1: u64, r2: u64, r3: u64, r4: u64) -> (e: EnemyState)
    ensures
        e.transform.position.x == scaled(r1, -BOUNDS_X / 2, BOUNDS_X / 2),
        e.transform.position.y == scaled(r2, -BOUNDS_Y / 2, BOUNDS_Y / 2),
        e.transform.orientation == 0,
        e.movement_speed == scaled(r3, ENEMY_SPEED_MIN as int, ENEMY_SPEED_MAX as int),
        e.steering == (Steering::RotateToPlayer {
            rotation_speed: scaled(r4, ENEMY_TURN_MIN as int, ENEMY_TURN_MAX as int) as i64,
        }),
        e.enemy,
        e.wf(),
{
    let x = scale_random(r1, 0 - BOUNDS_X / 2, BOUNDS_X / 2);
    let y = scale_random(r2, 0 - BOUNDS_Y / 2, BOUNDS_Y / 2);
    let movement_speed = scale_random(r3, ENEMY_SPEED_MIN, ENEMY_SPEED_MAX);
    let rotation_speed = scale_random(r4, ENEMY_TURN_MIN, ENEMY_TURN_MAX);
    EnemyState {
        transform: Transform2 { position: Vec2 { x, y }, orientation: 0 },
        movement_speed,
        steering: Steering::RotateToPlayer { rotation_speed },
        enemy: true,
    }
}

/// Advances the spawn timer by one frame time; each time that finishes
/// the timer, one randomized enemy spawns: within the play bounds,
/// unrotated, tagged, with its speed and turn rate in the randomized
/// ranges.
pub fn spawn_enemy_system(timer: &mut RepeatingTimer, dt: i64) -> (spawned: Option<EnemyState>)
    requires
        old(timer).wf(),
        0 <= dt <= DT_LIMIT,
    ensures
        spawned.is_some() == (old(timer).elapsed + dt >= old(timer).duration),
        final(timer).elapsed == (old(timer).elapsed + dt) % (old(timer).duration as int),
        final(timer).duration == old(timer).duration,
        final(timer).wf(),
        spawned.is_some() ==> {
            let e = spawned.unwrap();
            &&& -BOUNDS_X / 2 <= e.transform.position.x < BOUNDS_X / 2
            &&& -BOUNDS_Y / 2 <= e.transform.position.y < BOUNDS_Y / 2
            &&& e.transform.orientation == 0
            &&& ENEMY_SPEED_MIN <= e.movement_speed < ENEMY_SPEED_MAX
            &&& e.steering matches Steering::RotateToPlayer { rotation_speed }
                && ENEMY_TURN_MIN <= rotation_speed < ENEMY_TURN_MAX
            &&& e.enemy
            &&& e.wf()
        },
{
    if tick_repeating(timer, dt) {
        let r1 = rand::random::<u64>();
        let r2 = rand::random::<u64>();
        let r3 = rand::random::<u64>();
        let r4 = rand::random::<u64>();
        Some(make_enemy(r1, r2, r3, r4))
    } else {
        None
    }
}

} // verus!
