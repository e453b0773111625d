//! Enemy steering toward the player: instantaneous snapping and
//! rate-limited turning that never overshoots the facing angle.
//!
//! Both behaviors take the bearing toward the player — the normalized
//! orientation whose forward vector points from the enemy at the player
//! — as a plain value; the caller owns the trigonometry that derives it
//! from the two positions.

use vstd::prelude::*;
use crate::math::{
    Transform2, angle_diff, angle_diff_exec, angle_ok, lemma_angle_diff, lemma_mul_bound,
    lemma_norm_angle_shift, norm_angle, normalize_angle, DT_LIMIT, SPEED_LIMIT,
};

verus! {

/// The signed rotation applied in one frame of rate-limited facing,
/// where `diff` is the remaining shortest rotation onto the target:
/// zero when already facing, otherwise toward the target by the smaller
/// of the angular budget `rotation_speed * dt` and the remaining angle.
pub open spec fn limited_turn(diff: int, rotation_speed: int, dt: int) -> int {
    if diff == 0 {
        0
    } else {
        let budget = rotation_speed * dt;
        let mag = if budget < vstd::math::abs(diff) {
            budget
        } else {
            vstd::math::abs(diff) as int
        };
        if diff > 0 {
            mag
        } else {
            -mag
        }
    }
}

/// Rate-limited facing never rotates an enemy past the angle that
/// exactly faces the player in one frame, for any starting relative
/// angle: the turn stays within this frame's angular budget, it stops
/// at or before the facing angle on whichever side the player is, the
/// remaining rotation keeps its sign, and an enemy that already faces
/// the player does not rotate at all.
pub proof fn lemma_rotate_never_overshoots(target: int, current: int, rotation_speed: int, dt: int)
    requires
        angle_ok(target),
        angle_ok(current),
        0 <= rotation_speed,
        0 <= dt,
    ensures
        ({
            let d = angle_diff(target, current);
            let t = limited_turn(d, rotation_speed, dt);
            let rest = d - t;
            &&& d > 0 ==> 0 <= t <= d && 0 <= rest <= d
            &&& d < 0 ==> d <= t <= 0 && d <= rest <= 0
            &&& d == 0 ==> t == 0
            &&& -(rotation_speed * dt) <= t <= rotation_speed * dt
        }),
{
    vstd::arithmetic::mul::lemma_mul_nonnegative(rotation_speed, dt);
    lemma_angle_diff(target, current);
}

/// Snaps an enemy to face the player immediately: the orientation is
/// set to the bearing with no rate limit, and the position is untouched.
pub fn snap_to_player_system(transform: &mut Transform2, bearing: i64)
    requires
        angle_ok(bearing as int),
    ensures
        final(transform).orientation == bearing,
        final(transform).position == old(transform).position,
{
    transform.orientation = bearing;
}

/// Turns an enemy toward the player at a bounded angular rate.
///
/// When the enemy already faces the player the orientation is left
/// untouched. Otherwise it turns toward the bearing by the angular
/// budget of this frame, clamped to the remaining angle, so one call
/// never rotates past the angle that exactly faces the player: the
/// remaining rotation keeps its sign and shrinks by exactly the turn
/// taken, and a budget at least the remaining angle faces the player
/// exactly.
pub fn rotate_to_player_system(transform: &mut Transform2, rotation_speed: i64, bearing: i64, dt: i64)
    requires
        angle_ok(old(transform).orientation as int),
        angle_ok(bearing as int),
        0 <= rotation_speed <= SPEED_LIMIT,
        0 <= dt <= DT_LIMIT,
    ensures
        final(transform).position == old(transform).position,
        final(transform).orientation == norm_angle(
            old(transform).orientation + limited_turn(
                angle_diff(bearing as int, old(transform).orientation as int),
                rotation_speed as int,
                dt as int,
            ),
        ),
        angle_ok(final(transform).orientation as int),
        angle_diff(bearing as int, final(transform).orientation as int) == angle_diff(
            bearing as int,
            old(transform).orientation as int,
        ) - limited_turn(
            angle_diff(bearing as int, old(transform).orientation as int),
            rotation_speed as int,
            dt as int,
        ),
        angle_diff(bearing as int, old(transform).orientation as int) == 0
            ==> final(transform).orientation == old(transform).orientation,
        rotation_speed * dt >= vstd::math::abs(
            angle_diff(bearing as int, old(transform).orientation as int),
        ) ==> final(transform).orientation == bearing,
{
    let ghost o0 = transform.orientation as int;
    let d = angle_diff_exec(bearing, transform.orientation);
    proof {
        lemma_angle_diff(bearing as int, o0);
    }
    if d == 0 {
        proof {
            lemma_norm_angle_shift(o0);
        }
        return ;
    }
    proof {
        lemma_mul_bound(rotation_speed as int, SPEED_LIMIT as int, dt as int, DT_LIMIT as int);
    }
    let budget = rotation_speed * dt;
    let mag_d = if d > 0 {
        d
    } else {
        -d
    };
    let mag = if budget < mag_d {
        budget
    } else {
        mag_d
    };
    let turn = if d > 0 {
        mag
    } else {
        -mag
    };
    transform.orientation = normalize_angle(transform.orientation + turn);
    proof {
        lemma_norm_angle_shift(o0 + turn);
        lemma_angle_diff(bearing as int, transform.orientation as int);
    }
}

} // verus!
