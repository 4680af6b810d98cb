//! The simple chasing enemy: walks toward the knight and swings when in
//! range, cycling its walk or attack frames.

use vstd::prelude::*;

verus! {

/// Which frame the enemy shows: an index into its attack or walk frames.
#[derive(Clone, Copy, PartialEq, Eq, Debug, Structural)]
pub enum EnemyFrame {
    Attack(usize),
    Walk(usize),
}

/// The discrete state of the chasing enemy's animation.
pub struct EnemyAiSystem {
    pub walk_step: usize,
    pub attack_step: usize,
    pub attacking: bool,
}

impl EnemyAiSystem {
    pub fn new() -> (s: EnemyAiSystem)
        ensures
            s.walk_step == 0,
            s.attack_step == 0,
            !s.attacking,
    {
        EnemyAiSystem { walk_step: 0, attack_step: 0, attacking: false }
    }

    pub open spec fn wf(&self, walk_len: usize, attack_len: usize) -> bool {
        self.walk_step < walk_len && self.attack_step < attack_len
    }

    /// Enters or leaves attack mode. Returns whether the mode changed, in
    /// which case both animations restart (and the frame clock with them).
    pub fn engage(&mut self, in_range: bool) -> (changed: bool)
        ensures
            changed == (in_range != old(self).attacking),
            final(self).attacking == in_range,
            changed ==> final(self).walk_step == 0 && final(self).attack_step == 0,
            !changed ==> final(self).walk_step == old(self).walk_step && final(self).attack_step
                == old(self).attack_step,
    {
        let changed = in_range != self.attacking;
        if changed {
            self.attacking = in_range;
            self.walk_step = 0;
            self.attack_step = 0;
        }
        changed
    }

    /// The frame to show; when a frame period has elapsed (`due`) the active
    /// animation advances first.
    pub fn next_frame(&mut self, due: bool, walk_len: usize, attack_len: usize) -> (f: EnemyFrame)
        requires
            old(self).wf(walk_len, attack_len),
        ensures
            final(self).wf(walk_len, attack_len),
            final(self).attacking == old(self).attacking,
            old(self).attacking ==> final(self).walk_step == old(self).walk_step
                && final(self).attack_step == if due {
                (old(self).attack_step + 1) % (attack_len as int)
            } else {
                old(self).attack_step as int
            } && f == EnemyFrame::Attack(final(self).attack_step),
            !old(self).attacking ==> final(self).attack_step == old(self).attack_step
                && final(self).walk_step == if due {
                (old(self).walk_step + 1) % (walk_len as int)
            } else {
                old(self).walk_step as int
            } && f == EnemyFrame::Walk(final(self).walk_step),
    {
        if !due {
            return if self.attacking {
                EnemyFrame::Attack(self.attack_step)
            } else {
                EnemyFrame::Walk(self.walk_step)
            };
        }
        if self.attacking {
            self.attack_step = (self.attack_step + 1) % attack_len;
            EnemyFrame::Attack(self.attack_step)
        } else {
            self.walk_step = (self.walk_step + 1) % walk_len;
            EnemyFrame::Walk(self.walk_step)
        }
    }
}

} // verus!
