//! Pixel-accurate variant of the knight's hit detection: the caller tests
//! the attack rects against the ram heads' opaque pixels; the swing rule is
//! the same as for the rectangle test.

use vstd::prelude::*;
use crate::scene::battle_test::sys_attack_hit::{swing_lands, AttackEvent};

verus! {

/// Fires one attack event per swing of the knight's sword.
pub struct KnightAttackHitSystem {
    pub prev_visible: bool,
}

impl KnightAttackHitSystem {
    pub fn new() -> (s: KnightAttackHitSystem)
        ensures
            !s.prev_visible,
    {
        KnightAttackHitSystem { prev_visible: false }
    }

    /// One frame: an event fires on the frame the attack area appears, if it
    /// overlaps at least one ram head.
    pub fn update(&mut self, attacker: u64, visible: bool, targets: Vec<u64>) -> (event: Option<
        AttackEvent,
    >)
        ensures
            final(self).prev_visible == visible,
            event == if swing_lands(old(self).prev_visible, visible, targets@.len()) {
                Some(AttackEvent { attacker, targets })
            } else {
                None::<AttackEvent>
            },
    {
        let fire = visible && !self.prev_visible && targets.len() > 0;
        self.prev_visible = visible;
        if fire {
            Some(AttackEvent { attacker, targets })
        } else {
            None
        }
    }
}

} // verus!
