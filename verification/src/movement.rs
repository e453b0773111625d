//! Player input intent, kinematic movement integration, window
//! wrapping, and step sound-effect cueing.

use vstd::prelude::*;
use crate::math::{
    Vec2, Transform2, angle_ok, norm_angle, normalize_angle, lemma_mul_bound, DIR_ONE, DT_LIMIT,
    POS_LIMIT, SPEED_LIMIT,
};

verus! {

/// Extra space beyond the window on each axis before an entity wraps,
/// in micro-units, so that wrapping happens off-screen.
pub const WRAP_MARGIN: i64 = 50_000_000;

/// Per-entity movement intent recorded from input: a forward scalar and
/// a rotation scalar, each in `[-1, 1]`.
#[derive(Clone, Copy, PartialEq, Eq, Structural, Debug)]
pub struct MovementController {
    pub movement_intent: i64,
    pub rotation_intent: i64,
}

impl MovementController {
    /// Both intents are in `[-1, 1]`.
    pub open spec fn wf(self) -> bool {
        -1 <= self.movement_intent <= 1 && -1 <= self.rotation_intent <= 1
    }
}

impl Default for MovementController {
    /// A controller at rest: no movement and no rotation intent.
    fn default() -> (c: MovementController)
        ensures
            c.movement_intent == 0,
            c.rotation_intent == 0,
    {
        MovementController { movement_intent: 0, rotation_intent: 0 }
    }
}

/// Per-entity speed parameters: linear speed in milli-units per
/// millisecond and angular speed in millidegrees per millisecond.
#[derive(Clone, Copy, PartialEq, Eq, Structural, Debug)]
pub struct Movement {
    pub movement_speed: i64,
    pub rotation_speed: i64,
}

impl Movement {
    /// Both speeds are nonnegative and within the speed limit.
    pub open spec fn wf(self) -> bool {
        0 <= self.movement_speed <= SPEED_LIMIT && 0 <= self.rotation_speed <= SPEED_LIMIT
    }
}

/// The forward intent recorded from the pressed state of the forward
/// key.
pub open spec fn movement_intent_of(up: bool) -> int {
    if up {
        1
    } else {
        0
    }
}

/// The rotation intent recorded from the pressed state of the left and
/// right keys: left turns counter-clockwise (positive), right clockwise.
pub open spec fn rotation_intent_of(left: bool, right: bool) -> int {
    (if left { 1int } else { 0 }) - (if right { 1int } else { 0 })
}

/// Records the pressed state of the forward, left and right keys as
/// movement and rotation intent on the controller.
pub fn record_movement_controller(controller: &mut MovementController, up: bool, left: bool, right: bool)
    ensures
        final(controller).movement_intent == movement_intent_of(up),
        final(controller).rotation_intent == rotation_intent_of(left, right),
        final(controller).wf(),
{
    let mut movement_intent: i64 = 0;
    if up {
        movement_intent += 1;
    }

    let mut rotation_intent: i64 = 0;
    if left {
        rotation_intent += 1;
    }
    if right {
        rotation_intent -= 1;
    }

    controller.movement_intent = movement_intent;
    controller.rotation_intent = rotation_intent;
}

/// The orientation after one frame of turning: the rotation intent
/// times the angular speed times the frame time, added and normalized.
pub open spec fn turned_angle(orientation: int, rotation_intent: int, rotation_speed: int, dt: int) -> int {
    norm_angle(orientation + rotation_intent * rotation_speed * dt)
}

/// One component of the position delta of one frame of movement: the
/// forward-direction component times the movement intent, the linear
/// speed and the frame time. The direction component carries the
/// `DIR_ONE` scale, which turns milli-units into micro-units.
pub open spec fn movement_delta(dir: int, intent: int, speed: int, dt: int) -> int {
    dir * intent * speed * dt
}

/// The orientation an entity turns to in one frame.
pub fn next_orientation(orientation: i64, rotation_intent: i64, rotation_speed: i64, dt: i64) -> (r: i64)
    requires
        angle_ok(orientation as int),
        -1 <= rotation_intent <= 1,
        0 <= rotation_speed <= SPEED_LIMIT,
        0 <= dt <= DT_LIMIT,
    ensures
        r == turned_angle(orientation as int, rotation_intent as int, rotation_speed as int, dt as int),
        angle_ok(r as int),
{
    proof {
        lemma_mul_bound(rotation_intent as int, 1, rotation_speed as int, SPEED_LIMIT as int);
        lemma_mul_bound(
            rotation_intent as int * rotation_speed as int,
            SPEED_LIMIT as int,
            dt as int,
            DT_LIMIT as int,
        );
    }
    normalize_angle(orientation + rotation_intent * rotation_speed * dt)
}

/// One component of the position delta of one frame of movement.
pub fn movement_delta_exec(dir: i64, intent: i64, speed: i64, dt: i64) -> (r: i64)
    requires
        -DIR_ONE <= dir <= DIR_ONE,
        -1 <= intent <= 1,
        0 <= speed <= SPEED_LIMIT,
        0 <= dt <= DT_LIMIT,
    ensures
        r == movement_delta(dir as int, intent as int, speed as int, dt as int),
        -POS_LIMIT <= r <= POS_LIMIT,
{
    proof {
        lemma_mul_bound(dir as int, DIR_ONE as int, intent as int, 1);
        lemma_mul_bound((dir * intent) as int, DIR_ONE as int, speed as int, SPEED_LIMIT as int);
        lemma_mul_bound(
            (dir * intent * speed) as int,
            DIR_ONE as int * SPEED_LIMIT as int,
            dt as int,
            DT_LIMIT as int,
        );
    }
    dir * intent * speed * dt
}

/// Advances an entity one frame from its intent and speed parameters:
/// the orientation turns by the rotation intent times angular speed
/// times frame time, and the position advances along `forward` by the
/// movement intent times linear speed times frame time.
///
/// `forward` is the unit forward vector of the turned orientation at
/// the `DIR_ONE` scale; it is supplied by the caller, which owns the
/// trigonometry.
pub fn apply_movement(
    controller: &MovementController,
    movement: &Movement,
    transform: &mut Transform2,
    forward: Vec2,
    dt: i64,
)
    requires
        controller.wf(),
        movement.wf(),
        old(transform).wf(),
        forward.is_dir(),
        0 <= dt <= DT_LIMIT,
    ensures
        final(transform).orientation == turned_angle(
            old(transform).orientation as int,
            controller.rotation_intent as int,
            movement.rotation_speed as int,
            dt as int,
        ),
        angle_ok(final(transform).orientation as int),
        final(transform).position.x == old(transform).position.x + movement_delta(
            forward.x as int,
            controller.movement_intent as int,
            movement.movement_speed as int,
            dt as int,
        ),
        final(transform).position.y == old(transform).position.y + movement_delta(
            forward.y as int,
            controller.movement_intent as int,
            movement.movement_speed as int,
            dt as int,
        ),
        final(transform).position.within(2 * POS_LIMIT as int),
{
    transform.orientation = next_orientation(
        transform.orientation,
        controller.rotation_intent,
        movement.rotation_speed,
        dt,
    );
    let dx = movement_delta_exec(forward.x, controller.movement_intent, movement.movement_speed, dt);
    let dy = movement_delta_exec(forward.y, controller.movement_intent, movement.movement_speed, dt);
    transform.position.x = transform.position.x + dx;
    transform.position.y = transform.position.y + dy;
}

/// Marks an entity that wraps toroidally across the window edges
/// instead of stopping at them.
#[derive(Clone, Copy, PartialEq, Eq, Structural, Debug)]
pub struct WrapWithinWindow;

/// One coordinate wrapped modulo `size`, recentered at the origin:
/// the representative of `p` in `[-size / 2, size - size / 2)`.
pub open spec fn wrap_coord(p: int, size: int) -> int {
    (p + size / 2) % size - size / 2
}

/// Wraps one coordinate into the recentered window interval.
pub fn wrap_coord_exec(p: i64, size: i64) -> (r: i64)
    requires
        0 < size <= 2 * POS_LIMIT,
        -2 * POS_LIMIT <= p <= 2 * POS_LIMIT,
    ensures
        r == wrap_coord(p as int, size as int),
        -size / 2 <= r < size - size / 2,
{
    let half = size / 2;
    (p + half).checked_rem_euclid(size).unwrap() - half
}

/// Wraps an entity's position across the window edges, with a margin
/// beyond the window on each axis so that the jump happens off-screen.
/// The orientation is untouched.
pub fn wrap_within_window(transform: &mut Transform2, window: Vec2)
    requires
        0 < window.x <= POS_LIMIT,
        0 < window.y <= POS_LIMIT,
        old(transform).position.within(2 * POS_LIMIT as int),
    ensures
        final(transform).position.x == wrap_coord(
            old(transform).position.x as int,
            window.x + WRAP_MARGIN,
        ),
        final(transform).position.y == wrap_coord(
            old(transform).position.y as int,
            window.y + WRAP_MARGIN,
        ),
        final(transform).position.in_bounds(),
        final(transform).orientation == old(transform).orientation,
{
    let size_x = window.x + WRAP_MARGIN;
    let size_y = window.y + WRAP_MARGIN;
    transform.position.x = wrap_coord_exec(transform.position.x, size_x);
    transform.position.y = wrap_coord_exec(transform.position.y, size_y);
}

/// Wrapping is idempotent: a coordinate already inside the recentered
/// window interval is left where it is, so applying the wrap twice is
/// the same as applying it once.
pub proof fn lemma_wrap_idempotent(p: int, size: int)
    requires
        0 < size,
    ensures
        wrap_coord(wrap_coord(p, size), size) == wrap_coord(p, size),
{
    let half = size / 2;
    let m = (p + half) % size;
    vstd::arithmetic::div_mod::lemma_mod_bound(p + half, size);
    vstd::arithmetic::div_mod::lemma_small_mod(m as nat, size as nat);
}

/// The position delta of one frame of movement is linear in the frame
/// time and in the intent: deltas for two frame times are in exact
/// proportion, a zero frame time moves nothing, and a zero intent moves
/// nothing.
pub proof fn lemma_movement_delta_proportional(dir: int, intent: int, speed: int, dt1: int, dt2: int)
    by (nonlinear_arith)
    ensures
        movement_delta(dir, intent, speed, dt1) * dt2 == movement_delta(dir, intent, speed, dt2) * dt1,
        movement_delta(dir, intent, speed, 0) == 0,
        movement_delta(dir, 0, speed, dt1) == 0,
{
}

/// A fire-and-forget event for an external audio dispatcher.
#[derive(Clone, Copy, PartialEq, Eq, Structural, Debug)]
pub enum Sfx {
    Step,
}

/// A one-shot cooldown timer: `elapsed` advances with each tick and
/// saturates at `duration`; the timer is finished once it gets there.
/// Times are in milliseconds.
#[derive(Clone, Copy, PartialEq, Eq, Structural, Debug)]
pub struct CooldownTimer {
    pub elapsed: i64,
    pub duration: i64,
}

impl CooldownTimer {
    /// The elapsed time never runs past the duration.
    pub open spec fn wf(self) -> bool {
        0 <= self.elapsed <= self.duration && self.duration <= DT_LIMIT
    }

    /// The cooldown has fully elapsed.
    pub open spec fn finished(self) -> bool {
        self.elapsed >= self.duration
    }
}

/// Time between step sound effects of one entity.
#[derive(Clone, Copy, PartialEq, Eq, Structural, Debug)]
pub struct StepSfx {
    pub cooldown_timer: CooldownTimer,
}

impl StepSfx {
    /// A step cue gate with the given cooldown, in milliseconds. The
    /// timer starts fully elapsed, so the first step may cue at once.
    pub fn new(cooldown: i64) -> (s: StepSfx)
        requires
            0 <= cooldown <= DT_LIMIT,
        ensures
            s.cooldown_timer.duration == cooldown,
            s.cooldown_timer.elapsed == cooldown,
            s.cooldown_timer.wf(),
            s.cooldown_timer.finished(),
    {
        StepSfx { cooldown_timer: CooldownTimer { elapsed: cooldown, duration: cooldown } }
    }
}

/// Advances the step cooldown by one frame time, saturating at the
/// cooldown duration.
pub fn tick_step_sfx(step: &mut StepSfx, dt: i64)
    requires
        old(step).cooldown_timer.wf(),
        0 <= dt <= DT_LIMIT,
    ensures
        final(step).cooldown_timer.duration == old(step).cooldown_timer.duration,
        final(step).cooldown_timer.elapsed == if old(step).cooldown_timer.elapsed + dt
            >= old(step).cooldown_timer.duration {
            old(step).cooldown_timer.duration as int
        } else {
            old(step).cooldown_timer.elapsed + dt
        },
        final(step).cooldown_timer.wf(),
        final(step).cooldown_timer.finished() == (old(step).cooldown_timer.elapsed + dt
            >= old(step).cooldown_timer.duration),
{
    let t = step.cooldown_timer.elapsed + dt;
    if t >= step.cooldown_timer.duration {
        step.cooldown_timer.elapsed = step.cooldown_timer.duration;
    } else {
        step.cooldown_timer.elapsed = t;
    }
}

/// Emits a step cue exactly when the entity is moving and its cooldown
/// has elapsed; a cue resets the cooldown, enforcing a minimum interval
/// between cues.
pub fn trigger_step_sfx(controller: &MovementController, step: &mut StepSfx) -> (cue: Option<Sfx>)
    requires
        old(step).cooldown_timer.wf(),
    ensures
        cue == if old(step).cooldown_timer.finished() && controller.movement_intent != 0 {
            Some(Sfx::Step)
        } else {
            None::<Sfx>
        },
        final(step).cooldown_timer.duration == old(step).cooldown_timer.duration,
        final(step).cooldown_timer.elapsed == if old(step).cooldown_timer.finished()
            && controller.movement_intent != 0 {
            0int
        } else {
            old(step).cooldown_timer.elapsed as int
        },
        final(step).cooldown_timer.wf(),
{
    if step.cooldown_timer.elapsed >= step.cooldown_timer.duration && controller.movement_intent != 0 {
        step.cooldown_timer.elapsed = 0;
        Some(Sfx::Step)
    } else {
        None
    }
}

/// One frame of the movement plugin, in its declared system order:
/// tick the step cooldown, record input intent, integrate movement,
/// wrap within the window, then emit a step cue if one is due.
///
/// `forward` is the unit forward vector of the orientation the entity
/// turns to this frame (see `next_orientation`), at the `DIR_ONE`
/// scale; the caller owns the trigonometry.
pub fn movement_update(
    controller: &mut MovementController,
    movement: &Movement,
    transform: &mut Transform2,
    step: &mut StepSfx,
    up: bool,
    left: bool,
    right: bool,
    forward: Vec2,
    window: Vec2,
    dt: i64,
) -> (cue: Option<Sfx>)
    requires
        movement.wf(),
        old(transform).wf(),
        old(step).cooldown_timer.wf(),
        forward.is_dir(),
        0 < window.x <= POS_LIMIT,
        0 < window.y <= POS_LIMIT,
        0 <= dt <= DT_LIMIT,
    ensures
        final(controller).movement_intent == movement_intent_of(up),
        final(controller).rotation_intent == rotation_intent_of(left, right),
        final(transform).orientation == turned_angle(
            old(transform).orientation as int,
            rotation_intent_of(left, right),
            movement.rotation_speed as int,
            dt as int,
        ),
        final(transform).position.x == wrap_coord(
            old(transform).position.x + movement_delta(
                forward.x as int,
                movement_intent_of(up),
                movement.movement_speed as int,
                dt as int,
            ),
            window.x + WRAP_MARGIN,
        ),
        final(transform).position.y == wrap_coord(
            old(transform).position.y + movement_delta(
                forward.y as int,
                movement_intent_of(up),
                movement.movement_speed as int,
                dt as int,
            ),
            window.y + WRAP_MARGIN,
        ),
        final(transform).wf(),
        cue == if old(step).cooldown_timer.elapsed + dt >= old(step).cooldown_timer.duration && up {
            Some(Sfx::Step)
        } else {
            None::<Sfx>
        },
        final(step).cooldown_timer.wf(),
{
    tick_step_sfx(step, dt);
    record_movement_controller(controller, up, left, right);
    apply_movement(controller, movement, transform, forward, dt);
    wrap_within_window(transform, window);
    trigger_step_sfx(controller, step)
}

} // verus!
