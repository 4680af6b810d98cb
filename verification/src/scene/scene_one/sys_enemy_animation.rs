//! Per-enemy animation tracking in the platformer.

use vstd::prelude::*;
use std::collections::HashMap;
use crate::scene::scene_one::components::EnemyAnim;

verus! {

broadcast use vstd::std_specs::hash::group_hash_axioms;

/// Remembers each enemy's last animation, keyed by entity id, so that an
/// animation change restarts the enemy's frame clock.
pub struct EnemyAnimationSys {
    pub last_anim: HashMap<u64, EnemyAnim>,
}

impl EnemyAnimationSys {
    pub fn new() -> (s: EnemyAnimationSys)
        ensures
            s.last_anim@ == Map::<u64, EnemyAnim>::empty(),
    {
        EnemyAnimationSys { last_anim: HashMap::new() }
    }

    /// Records enemy `id`'s animation this frame. Returns whether it differs
    /// from the one recorded before (or none was).
    pub fn note_anim(&mut self, id: u64, cur: EnemyAnim) -> (changed: bool)
        ensures
            changed == !(old(self).last_anim@.contains_key(id) && old(self).last_anim@[id] == cur),
            final(self).last_anim@ == old(self).last_anim@.insert(id, cur),
    {
        let changed = match self.last_anim.get(&id) {
            Some(prev) => *prev != cur,
            None => true,
        };
        self.last_anim.insert(id, cur);
        changed
    }
}

/// Once an enemy's animation is recorded, recording the same animation
/// again reports no change, while any other animation does; other enemies'
/// records are untouched.
pub proof fn lemma_change_detection(m: Map<u64, EnemyAnim>, id: u64, other: u64, a: EnemyAnim, b: EnemyAnim)
    requires
        other != id,
    ensures
        m.insert(id, a).contains_key(id) && m.insert(id, a)[id] == a,
        a != b ==> !(m.insert(id, a).contains_key(id) && m.insert(id, a)[id] == b),
        m.insert(id, a).contains_key(other) == m.contains_key(other),
        m.contains_key(other) ==> m.insert(id, a)[other] == m[other],
{
}

} // verus!
