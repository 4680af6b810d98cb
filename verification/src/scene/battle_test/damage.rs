//! Hit-point bookkeeping shared by every attack in the battle scene.

use vstd::prelude::*;

verus! {

/// Hit points left after `damage` lands on `hp`: never below zero.
pub open spec fn hp_after(hp: int, damage: int) -> int {
    if hp - damage > 0 {
        hp - damage
    } else {
        0
    }
}

/// Whether a hit takes the target from alive (hp > 0) to dead (hp <= 0).
pub open spec fn kills(hp: int, damage: int) -> bool {
    hp > 0 && hp_after(hp, damage) <= 0
}

/// A hit lands: the new hit points, and whether this very hit killed the
/// target (when a death event is due).
pub fn apply_damage(hp: i32, damage: i32) -> (res: (i32, bool))
    requires
        i32::MIN <= hp - damage <= i32::MAX,
    ensures
        res.0 == hp_after(hp as int, damage as int),
        res.1 == kills(hp as int, damage as int),
{
    let left: i32 = hp - damage;
    let new_hp: i32 = if left > 0 {
        left
    } else {
        0
    };
    (new_hp, hp > 0 && new_hp <= 0)
}

/// Deaths reported over a series of hits on one target.
pub open spec fn deaths(hp: int, hits: Seq<int>) -> nat
    decreases hits.len(),
{
    if hits.len() == 0 {
        0
    } else {
        (if kills(hp, hits[0]) {
            1nat
        } else {
            0nat
        }) + deaths(hp_after(hp, hits[0]), hits.drop_first())
    }
}

/// Whatever hits land on a target, its hit points stay non-negative and at
/// most one death is reported for it.
pub proof fn lemma_death_reported_once(hp: int, hits: Seq<int>)
    requires
        forall|i: int| 0 <= i < hits.len() ==> hits[i] >= 0,
    ensures
        deaths(hp, hits) <= 1,
        hp <= 0 ==> deaths(hp, hits) == 0,
    decreases hits.len(),
{
    if hits.len() > 0 {
        let rest = hits.drop_first();
        assert forall|i: int| 0 <= i < rest.len() implies rest[i] >= 0 by {
            assert(rest[i] == hits[i + 1]);
        }
        lemma_death_reported_once(hp_after(hp, hits[0]), rest);
        assert(hp_after(hp, hits[0]) >= 0);
    }
}

/// A non-negative hit never raises hit points, and never leaves them
/// negative.
pub proof fn lemma_damage_never_heals(hp: int, damage: int)
    requires
        damage >= 0,
    ensures
        hp_after(hp, damage) >= 0,
        hp >= 0 ==> hp_after(hp, damage) <= hp,
{
}

} // verus!
