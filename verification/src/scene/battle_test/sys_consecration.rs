//! Consecration: a cast holds the knight in the thrust pose for a moment and
//! lays a holy area on the ground under its feet, which burns for a while
//! and fades. The caller runs the timers and the shards; this is the
//! lifecycle that decides what happens when.

use vstd::prelude::*;
use crate::entity::skill::SkillIconKind;
use crate::scene::battle_test::sys_skill::cast_accepted;

verus! {

/// The Consecration skill.
#[derive(Clone, Copy, PartialEq, Eq, Debug, Structural)]
pub struct ConsecrationSystem {
    /// The area is on the ground.
    pub active: bool,
    /// The skill holds the knight's lock (thrust pose).
    pub locking: bool,
}

/// What the caller measured this frame.
#[derive(Clone, Copy, PartialEq, Eq, Debug, Structural)]
pub struct ConsecrationView {
    /// The lock time ran out this frame.
    pub lock_over: bool,
    /// The area has lasted its whole life.
    pub area_over: bool,
}

/// The effects of one frame.
#[derive(Clone, Copy, PartialEq, Eq, Debug, Structural)]
pub struct ConsecrationStep {
    /// Remove the skill's knight lock and return the knight to idle.
    pub release_lock: bool,
    /// The area ends: remove it and its effects.
    pub vanish: bool,
}

impl ConsecrationSystem {
    /// No area, no lock.
    pub fn new() -> (s: ConsecrationSystem)
        ensures
            !s.active,
            !s.locking,
    {
        ConsecrationSystem { active: false, locking: false }
    }

    /// Whether a cast event lays an area, given the knight's lock state
    /// (`None`: no knight) and whether its body (where its feet are) was
    /// found. Casts of other skills, and casts while an area burns or the
    /// lock is held, are ignored.
    pub open spec fn accepts(self, event: SkillIconKind, knight_lock: Option<bool>, has_body: bool) -> bool {
        &&& event == SkillIconKind::Consecration
        &&& !self.active
        &&& !self.locking
        &&& knight_lock == Some(false)
        &&& has_body
    }

    /// Handles a cast event; when it starts, the caller puts the knight in
    /// the thrust pose, adds the skill's knight lock and lays the area at
    /// the knight's feet.
    pub fn begin_cast(&mut self, event: SkillIconKind, knight_lock: Option<bool>, has_body: bool) -> (started: bool)
        ensures
            started == old(self).accepts(event, knight_lock, has_body),
            *final(self) == (if started {
                ConsecrationSystem { active: true, locking: true }
            } else {
                *old(self)
            }),
    {
        let busy = self.active || self.locking;
        if !cast_accepted(SkillIconKind::Consecration, event, busy, knight_lock) || !has_body {
            return false;
        }
        self.active = true;
        self.locking = true;
        true
    }

    /// The lifecycle's transition table for one frame: the lock ends on its
    /// timer, the area on its own.
    pub open spec fn next(self, view: ConsecrationView) -> (ConsecrationSystem, ConsecrationStep) {
        let release = self.locking && view.lock_over;
        let vanish = self.active && view.area_over;
        (
            ConsecrationSystem { active: self.active && !vanish, locking: self.locking && !release },
            ConsecrationStep { release_lock: release, vanish },
        )
    }

    /// One frame of the skill.
    pub fn update(&mut self, view: ConsecrationView) -> (out: ConsecrationStep)
        ensures
            (*final(self), out) == old(self).next(view),
    {
        let mut out = ConsecrationStep { release_lock: false, vanish: false };
        if self.locking && view.lock_over {
            self.locking = false;
            out.release_lock = true;
        }
        if self.active && view.area_over {
            self.active = false;
            out.vanish = true;
        }
        out
    }
}

/// The state after a run of frames.
pub open spec fn consecration_after(s: ConsecrationSystem, views: Seq<ConsecrationView>) -> ConsecrationSystem
    decreases views.len(),
{
    if views.len() == 0 {
        s
    } else {
        consecration_after(s.next(views[0]).0, views.drop_first())
    }
}

/// Lock releases over a run of frames.
pub open spec fn consecration_releases(s: ConsecrationSystem, views: Seq<ConsecrationView>) -> nat
    decreases views.len(),
{
    if views.len() == 0 {
        0
    } else {
        let (s2, out) = s.next(views[0]);
        (if out.release_lock {
            1nat
        } else {
            0nat
        }) + consecration_releases(s2, views.drop_first())
    }
}

/// The knight lock a cast takes is released exactly once: over any run of
/// frames, the lock held at the start equals the releases during the run
/// plus the lock still held at its end; and an area that has ended does not
/// come back without a new cast.
pub proof fn lemma_consecration_lock_released_once(s: ConsecrationSystem, views: Seq<ConsecrationView>)
    ensures
        consecration_releases(s, views) + (if consecration_after(s, views).locking {
            1int
        } else {
            0int
        }) == (if s.locking {
            1int
        } else {
            0int
        }),
        !s.active ==> !consecration_after(s, views).active,
    decreases views.len(),
{
    if views.len() > 0 {
        lemma_consecration_lock_released_once(s.next(views[0]).0, views.drop_first());
    }
}

} // verus!
