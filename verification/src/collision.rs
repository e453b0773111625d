//! Collision-to-health resolution: every enemy close enough to the
//! player costs a fixed amount of health, each qualifying enemy once
//! per frame with no dedup, and the session ends the moment health
//! reaches zero.

use vstd::prelude::*;
use crate::math::{Vec2, closer_than, dist_sq};

verus! {

/// Distance below which an enemy collides with the player, in
/// micro-units.
pub const COLLISION_DISTANCE: i64 = 30_000_000;

/// Health lost on each collision.
pub const COLLISION_DAMAGE: i64 = 10;

/// Health the player starts the session with.
pub const STARTING_HEALTH: i64 = 100;

/// The player's remaining health.
#[derive(Clone, Copy, PartialEq, Eq, Structural, Debug)]
pub struct Health {
    pub value: i64,
}

/// An enemy at this position collides with a player at `player`:
/// their distance is strictly below the collision threshold.
pub open spec fn qualifying(player: Vec2, enemy: Vec2) -> bool {
    dist_sq(player, enemy) < COLLISION_DISTANCE * COLLISION_DISTANCE
}

/// Health left after resolving one frame of collisions in order:
/// each qualifying enemy subtracts `damage`, and resolution stops the
/// moment a hit drives health to zero or below (the session ends there).
pub open spec fn health_after(h: int, quals: Seq<bool>, damage: int) -> int
    decreases quals.len(),
{
    if quals.len() == 0 {
        h
    } else if quals[0] {
        let h2 = h - damage;
        if h2 <= 0 {
            h2
        } else {
            health_after(h2, quals.drop_first(), damage)
        }
    } else {
        health_after(h, quals.drop_first(), damage)
    }
}

/// Number of hits applied while resolving one frame of collisions,
/// counting up to and including the hit that ends the session.
pub open spec fn hits_taken(h: int, quals: Seq<bool>, damage: int) -> nat
    decreases quals.len(),
{
    if quals.len() == 0 {
        0
    } else if quals[0] {
        let h2 = h - damage;
        if h2 <= 0 {
            1
        } else {
            1 + hits_taken(h2, quals.drop_first(), damage)
        }
    } else {
        hits_taken(h, quals.drop_first(), damage)
    }
}

/// Whether one frame of collisions defeats the player: some hit drives
/// health to zero or below.
pub open spec fn defeated_after(h: int, quals: Seq<bool>, damage: int) -> bool
    decreases quals.len(),
{
    if quals.len() == 0 {
        false
    } else if quals[0] {
        let h2 = h - damage;
        if h2 <= 0 {
            true
        } else {
            defeated_after(h2, quals.drop_first(), damage)
        }
    } else {
        defeated_after(h, quals.drop_first(), damage)
    }
}

/// Which enemies of one frame collide with the player.
pub open spec fn quals_of(player: Vec2, enemies: Seq<Vec2>) -> Seq<bool> {
    enemies.map(|i: int, e: Vec2| qualifying(player, e))
}

/// Resolves one frame of collisions between the player and the enemies,
/// in enemy order. Each qualifying enemy reduces health by the fixed
/// damage amount, once per enemy with no dedup across simultaneous
/// collisions. After each hit the new health value is reported; the
/// frame stops at the hit that drives health to zero or below, and
/// `defeated` says whether that happened — the caller must then end the
/// session.
pub fn collision_system(health: &mut Health, player: Vec2, enemies: &Vec<Vec2>) -> (r: (Vec<i64>, bool))
    requires
        old(health).value > 0,
        player.in_bounds(),
        forall|i: int| 0 <= i < enemies@.len() ==> (#[trigger] enemies@[i]).in_bounds(),
    ensures
        final(health).value == health_after(
            old(health).value as int,
            quals_of(player, enemies@),
            COLLISION_DAMAGE as int,
        ),
        r.0@.len() == hits_taken(
            old(health).value as int,
            quals_of(player, enemies@),
            COLLISION_DAMAGE as int,
        ),
        forall|j: int| 0 <= j < r.0@.len() ==> r.0@[j] == old(health).value - COLLISION_DAMAGE * (j
            + 1),
        final(health).value == old(health).value - COLLISION_DAMAGE * r.0@.len(),
        r.1 == defeated_after(
            old(health).value as int,
            quals_of(player, enemies@),
            COLLISION_DAMAGE as int,
        ),
        r.1 == (final(health).value <= 0),
{
    let ghost h0 = health.value as int;
    let ghost quals = quals_of(player, enemies@);
    let mut reports: Vec<i64> = Vec::new();
    let mut defeated: bool = false;
    let mut i: usize = 0;
    proof {
        assert(quals.skip(0) =~= quals);
    }
    while i < enemies.len() && !defeated
        invariant
            health.value > 0 || defeated,
            0 <= i <= enemies@.len(),
            quals == quals_of(player, enemies@),
            quals.len() == enemies@.len(),
            player.in_bounds(),
            forall|k: int| 0 <= k < enemies@.len() ==> (#[trigger] enemies@[k]).in_bounds(),
            health.value == h0 - COLLISION_DAMAGE * reports@.len(),
            forall|j: int| 0 <= j < reports@.len() ==> reports@[j] == h0 - COLLISION_DAMAGE * (j
                + 1),
            !defeated ==> health_after(h0, quals, COLLISION_DAMAGE as int) == health_after(
                health.value as int,
                quals.skip(i as int),
                COLLISION_DAMAGE as int,
            ),
            !defeated ==> hits_taken(h0, quals, COLLISION_DAMAGE as int) == reports@.len()
                + hits_taken(health.value as int, quals.skip(i as int), COLLISION_DAMAGE as int),
            !defeated ==> defeated_after(h0, quals, COLLISION_DAMAGE as int) == defeated_after(
                health.value as int,
                quals.skip(i as int),
                COLLISION_DAMAGE as int,
            ),
            defeated ==> health.value <= 0,
            defeated ==> health_after(h0, quals, COLLISION_DAMAGE as int) == health.value,
            defeated ==> hits_taken(h0, quals, COLLISION_DAMAGE as int) == reports@.len(),
            defeated ==> defeated_after(h0, quals, COLLISION_DAMAGE as int),
        decreases enemies@.len() - i,
    {
        proof {
            assert(quals.skip(i as int)[0] == quals[i as int]);
            assert(quals.skip(i as int).drop_first() =~= quals.skip(i as int + 1));
        }
        if closer_than(player, enemies[i], COLLISION_DISTANCE) {
            health.value = health.value - COLLISION_DAMAGE;
            reports.push(health.value);
            if health.value <= 0 {
                defeated = true;
            }
        }
        i += 1;
    }
    proof {
        if !defeated {
            assert(quals.skip(i as int) =~= Seq::<bool>::empty());
        }
    }
    (reports, defeated)
}

/// Number of `true` entries of a sequence of collision outcomes.
pub open spec fn count_true(s: Seq<bool>) -> nat
    decreases s.len(),
{
    if s.len() == 0 {
        0
    } else {
        (if s[0] {
            1nat
        } else {
            0
        }) + count_true(s.drop_first())
    }
}

/// Each qualifying enemy reduces health by the damage amount exactly
/// once per frame: when no hit of the frame ends the session, the
/// frame's loss is the damage times the number of qualifying enemies —
/// simultaneous collisions stack, with no dedup.
pub proof fn lemma_damage_stacks(h: int, quals: Seq<bool>, damage: int)
    requires
        0 <= damage,
        health_after(h, quals, damage) > 0,
    ensures
        health_after(h, quals, damage) == h - damage * count_true(quals),
        hits_taken(h, quals, damage) == count_true(quals),
        !defeated_after(h, quals, damage),
    decreases quals.len(),
{
    if quals.len() == 0 {
        assert(count_true(quals) == 0);
        assert(damage * count_true(quals) == 0) by (nonlinear_arith)
            requires count_true(quals) == 0;
    } else {
        let rest = quals.drop_first();
        if quals[0] {
            let h2 = h - damage;
            if h2 <= 0 {
                assert(health_after(h, quals, damage) == h2);
            } else {
                lemma_damage_stacks(h2, rest, damage);
                assert(health_after(h, quals, damage) == h2 - damage * count_true(rest));
                assert(count_true(quals) == 1 + count_true(rest));
                assert(damage * (1 + count_true(rest)) == damage + damage * count_true(rest))
                    by (nonlinear_arith);
                assert(damage * count_true(quals) == damage + damage * count_true(rest));
            }
        } else {
            lemma_damage_stacks(h, rest, damage);
        }
    }
}

/// Health over a session of single-hit frames: the player starts at
/// full health, and in each frame exactly one enemy collides.
pub open spec fn session_health(frames: nat) -> int
    decreases frames,
{
    if frames == 0 {
        STARTING_HEALTH as int
    } else {
        health_after(session_health((frames - 1) as nat), seq![true], COLLISION_DAMAGE as int)
    }
}

/// One single-hit frame costs exactly the damage amount, and defeats
/// the player exactly when it leaves no health.
pub proof fn lemma_single_hit_frame(h: int)
    ensures
        health_after(h, seq![true], COLLISION_DAMAGE as int) == h - COLLISION_DAMAGE,
        defeated_after(h, seq![true], COLLISION_DAMAGE as int) == (h - COLLISION_DAMAGE <= 0),
{
    let s = seq![true];
    assert(s.len() == 1);
    assert(s[0]);
    assert(s.drop_first() =~= Seq::<bool>::empty());
    assert(health_after(h - COLLISION_DAMAGE, s.drop_first(), COLLISION_DAMAGE as int) == h
        - COLLISION_DAMAGE);
    assert(!defeated_after(h - COLLISION_DAMAGE, s.drop_first(), COLLISION_DAMAGE as int));
}

/// While single-hit frames stay within the starting health, health
/// falls linearly with the frame count.
pub proof fn lemma_session_health_linear(frames: nat)
    requires
        COLLISION_DAMAGE * frames <= STARTING_HEALTH,
    ensures
        session_health(frames) == STARTING_HEALTH - COLLISION_DAMAGE * frames,
    decreases frames,
{
    if frames > 0 {
        lemma_session_health_linear((frames - 1) as nat);
        lemma_single_hit_frame(session_health((frames - 1) as nat));
    }
}

/// Starting from full health, exactly ten single-hit collision frames
/// drive health to zero, and the tenth frame's hit ends the session.
pub proof fn lemma_defeated_after_ten_frames()
    ensures
        session_health(10) == 0,
        defeated_after(session_health(9), seq![true], COLLISION_DAMAGE as int),
{
    lemma_session_health_linear(9);
    lemma_session_health_linear(10);
    lemma_single_hit_frame(session_health(9));
}

} // verus!
