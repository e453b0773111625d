//! Fixed-point scalar and vector arithmetic shared by every system:
//! 2D vectors of micro-unit coordinates, angles in millidegrees, and
//! squared-distance comparison.

use vstd::prelude::*;

verus! {

/// One full turn, in millidegrees.
pub const FULL_TURN: i64 = 360_000;

/// Half a turn, in millidegrees.
pub const HALF_TURN: i64 = 180_000;

/// Fixed-point scale of a unit direction vector: a component of a
/// direction lies in `[-DIR_ONE, DIR_ONE]` and stands for a real value
/// in `[-1, 1]`.
pub const DIR_ONE: i64 = 1_000;

/// Largest coordinate magnitude the systems accept, in micro-units.
pub const POS_LIMIT: i64 = 1_000_000_000_000_000;

/// Largest linear or angular speed the systems accept.
pub const SPEED_LIMIT: i64 = 1_000_000;

/// Largest frame time the systems accept, in milliseconds.
pub const DT_LIMIT: i64 = 1_000_000;

/// A 2D vector with fixed-point integer components.
#[derive(Clone, Copy, PartialEq, Eq, Structural, Debug)]
pub struct Vec2 {
    pub x: i64,
    pub y: i64,
}

impl Vec2 {
    /// Both components are within `limit` in magnitude.
    pub open spec fn within(self, limit: int) -> bool {
        -limit <= self.x <= limit && -limit <= self.y <= limit
    }

    /// Both components are within the coordinate limit.
    pub open spec fn in_bounds(self) -> bool {
        self.within(POS_LIMIT as int)
    }

    /// Both components are within the direction scale, so the vector can
    /// stand for a unit direction.
    pub open spec fn is_dir(self) -> bool {
        -DIR_ONE <= self.x <= DIR_ONE && -DIR_ONE <= self.y <= DIR_ONE
    }
}

/// Squared Euclidean distance between two points, exact over `int`.
pub open spec fn dist_sq(a: Vec2, b: Vec2) -> int {
    (a.x - b.x) * (a.x - b.x) + (a.y - b.y) * (a.y - b.y)
}

/// An entity's spatial state: a position in micro-units and an
/// orientation angle in millidegrees, kept in normalized form.
#[derive(Clone, Copy, PartialEq, Eq, Structural, Debug)]
pub struct Transform2 {
    pub position: Vec2,
    pub orientation: i64,
}

impl Transform2 {
    /// The position is within the coordinate limit and the orientation
    /// is normalized.
    pub open spec fn wf(self) -> bool {
        self.position.in_bounds() && angle_ok(self.orientation as int)
    }
}

/// A product of values bounded by `bx` and `by2` is bounded by
/// `bx * by2`.
pub proof fn lemma_mul_bound(x: int, bx: int, y: int, by2: int)
    by (nonlinear_arith)
    requires
        -bx <= x <= bx,
        -by2 <= y <= by2,
        0 <= bx,
        0 <= by2,
    ensures
        -(bx * by2) <= x * y <= bx * by2,
{
}

/// The square of a value bounded by `b` is bounded by `b * b`.
pub proof fn lemma_square_bound(x: int, b: int)
    by (nonlinear_arith)
    requires
        -b <= x <= b,
    ensures
        0 <= x * x <= b * b,
{
}

/// Whether `a` and `b` are strictly closer than `threshold`.
///
/// Compares squared distances, which is equivalent for a nonnegative
/// threshold and avoids any square root.
pub fn closer_than(a: Vec2, b: Vec2, threshold: i64) -> (r: bool)
    requires
        a.in_bounds(),
        b.in_bounds(),
        0 <= threshold <= POS_LIMIT,
    ensures
        r == (dist_sq(a, b) < threshold * threshold),
{
    let dx: i128 = a.x as i128 - b.x as i128;
    let dy: i128 = a.y as i128 - b.y as i128;
    let t: i128 = threshold as i128;
    proof {
        lemma_square_bound(dx as int, 2 * POS_LIMIT as int);
        lemma_square_bound(dy as int, 2 * POS_LIMIT as int);
        lemma_square_bound(t as int, POS_LIMIT as int);
    }
    dx * dx + dy * dy < t * t
}

/// The representative of an angle in `[0, FULL_TURN)`, by Euclidean
/// remainder.
pub open spec fn norm_angle(a: int) -> int {
    a % (FULL_TURN as int)
}

/// An angle is in normalized form.
pub open spec fn angle_ok(a: int) -> bool {
    0 <= a < FULL_TURN
}

/// Normalizes an angle in millidegrees into `[0, FULL_TURN)`.
pub fn normalize_angle(a: i64) -> (r: i64)
    ensures
        r == norm_angle(a as int),
        angle_ok(r as int),
{
    a.checked_rem_euclid(FULL_TURN).unwrap()
}

/// The signed shortest rotation that carries `current` onto `target`,
/// in `[-HALF_TURN, HALF_TURN)`. Positive is counter-clockwise.
pub open spec fn angle_diff(target: int, current: int) -> int {
    let d = (target - current) % (FULL_TURN as int);
    if d >= HALF_TURN as int {
        d - FULL_TURN as int
    } else {
        d
    }
}

/// Computes `angle_diff` on normalized angles.
pub fn angle_diff_exec(target: i64, current: i64) -> (r: i64)
    requires
        angle_ok(target as int),
        angle_ok(current as int),
    ensures
        r == angle_diff(target as int, current as int),
        -HALF_TURN <= r < HALF_TURN,
{
    let d = (target - current).checked_rem_euclid(FULL_TURN).unwrap();
    if d >= HALF_TURN {
        d - FULL_TURN
    } else {
        d
    }
}

/// Explicit form of `norm_angle` on a value within one turn of the
/// normalized range: normalizing shifts by at most one full turn.
pub proof fn lemma_norm_angle_shift(x: int)
    requires
        -FULL_TURN <= x < 2 * FULL_TURN,
    ensures
        norm_angle(x) == if x < 0 {
            x + FULL_TURN
        } else if x >= FULL_TURN {
            x - FULL_TURN
        } else {
            x
        },
        angle_ok(norm_angle(x)),
{
    if x < 0 {
        vstd::arithmetic::div_mod::lemma_mod_add_multiples_vanish(x, FULL_TURN as int);
        vstd::arithmetic::div_mod::lemma_small_mod((x + FULL_TURN) as nat, FULL_TURN as nat);
    } else if x >= FULL_TURN {
        vstd::arithmetic::div_mod::lemma_mod_add_multiples_vanish(x - FULL_TURN, FULL_TURN as int);
        vstd::arithmetic::div_mod::lemma_small_mod((x - FULL_TURN) as nat, FULL_TURN as nat);
    } else {
        vstd::arithmetic::div_mod::lemma_small_mod(x as nat, FULL_TURN as nat);
    }
}

/// Explicit form of `angle_diff` on normalized angles: it is the plain
/// difference shifted by at most one full turn into `[-HALF_TURN,
/// HALF_TURN)`, and turning `current` by exactly that rotation faces
/// `target`.
pub proof fn lemma_angle_diff(target: int, current: int)
    requires
        angle_ok(target),
        angle_ok(current),
    ensures
        angle_diff(target, current) == if target - current >= HALF_TURN {
            target - current - FULL_TURN
        } else if target - current < -HALF_TURN {
            target - current + FULL_TURN
        } else {
            target - current
        },
        -HALF_TURN <= angle_diff(target, current) < HALF_TURN,
        norm_angle(current + angle_diff(target, current)) == target,
{
    lemma_norm_angle_shift(target - current);
    lemma_norm_angle_shift(current + angle_diff(target, current));
}

} // verus!
