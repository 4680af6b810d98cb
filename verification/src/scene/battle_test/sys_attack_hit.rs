//! Turning the knight's sword swing into attack events.

use vstd::prelude::*;

verus! {

/// An attack landing on a set of targets.
#[derive(PartialEq, Eq, Debug)]
pub struct AttackEvent {
    pub attacker: u64,
    pub targets: Vec<u64>,
}

/// A swing lands on the frame the attack area appears (it was hidden the
/// frame before) while it overlaps at least one target.
pub open spec fn swing_lands(prev_visible: bool, visible: bool, targets: nat) -> bool {
    visible && !prev_visible && targets > 0
}

/// Fires one attack event per swing: when the sword's attack area becomes
/// visible while overlapping at least one ram head.
pub struct AttackHitSystem {
    pub prev_visible: bool,
}

impl AttackHitSystem {
    pub fn new() -> (s: AttackHitSystem)
        ensures
            !s.prev_visible,
    {
        AttackHitSystem { prev_visible: false }
    }

    /// One frame: `visible` is the attack area's visibility and `targets`
    /// the ram heads it overlaps. An event fires only on the frame the area
    /// appears, and only if it hits something.
    pub fn update(&mut self, attacker: u64, visible: bool, targets: Vec<u64>) -> (event: Option<
        AttackEvent,
    >)
        ensures
            final(self).prev_visible == visible,
            event == if swing_lands(old(self).prev_visible, visible, targets@.len()) {
                Some(AttackEvent { attacker, targets })
            } else {
                None::<AttackEvent>
            },
    {
        let fire = visible && !self.prev_visible && targets.len() > 0;
        self.prev_visible = visible;
        if fire {
            Some(AttackEvent { attacker, targets })
        } else {
            None
        }
    }
}


/// One event per swing: two consecutive frames never both fire, whatever
/// they overlap.
pub proof fn lemma_one_event_per_swing(prev: bool, v1: bool, v2: bool, t1: nat, t2: nat)
    ensures
        !(swing_lands(prev, v1, t1) && swing_lands(v1, v2, t2)),
{
}

/// An area that stays visible fires at most on its first frame, however
/// long it stays: after the first visible frame no frame fires until the
/// area has been hidden.
pub proof fn lemma_no_refire_while_visible(visible_frames: Seq<bool>, i: int, t: nat)
    requires
        0 < i < visible_frames.len(),
        visible_frames[i - 1],
    ensures
        !swing_lands(visible_frames[i - 1], visible_frames[i], t),
{
}

} // verus!
