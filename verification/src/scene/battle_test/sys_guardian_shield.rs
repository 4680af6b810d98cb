//! Guardian Shield: a cast holds the knight in the swipe pose for a short
//! stance, then a large shield appears in front of it for a long while and
//! vanishes. The caller runs the timers and the sparkle effects; this is the
//! lifecycle that decides what happens when.

use vstd::prelude::*;
use crate::entity::skill::SkillIconKind;
use crate::scene::battle_test::sys_skill::cast_accepted;

verus! {

/// Where the skill is in its life.
#[derive(Clone, Copy, PartialEq, Eq, Debug, Structural)]
pub enum GuardPhase {
    /// No cast running.
    Idle,
    /// The knight holds the swipe pose under the skill's lock.
    Stance,
    /// The shield is up.
    Shielded,
}

/// The Guardian Shield skill.
#[derive(Clone, Copy, PartialEq, Eq, Debug, Structural)]
pub struct GuardianShieldSystem {
    pub phase: GuardPhase,
}

/// What the caller measured this frame.
#[derive(Clone, Copy, PartialEq, Eq, Debug, Structural)]
pub struct GuardView {
    /// The stance time ran out this frame.
    pub stance_over: bool,
    /// The shield has been up for its whole life.
    pub life_over: bool,
}

/// The effects of one frame.
#[derive(Clone, Copy, PartialEq, Eq, Debug, Structural)]
pub struct GuardStep {
    /// Remove the skill's knight lock and return the knight to idle.
    pub release_lock: bool,
    /// The shield appears: spawn its area and the sparkles.
    pub appear: bool,
    /// The shield vanishes: remove its area and effects.
    pub vanish: bool,
}

/// The skill holds the knight's lock exactly while the stance runs.
pub open spec fn guard_holds_lock(s: GuardianShieldSystem) -> bool {
    s.phase == GuardPhase::Stance
}

impl GuardianShieldSystem {
    /// No cast running.
    pub fn new() -> (s: GuardianShieldSystem)
        ensures
            s.phase == GuardPhase::Idle,
    {
        GuardianShieldSystem { phase: GuardPhase::Idle }
    }

    /// Whether a cast event starts the stance, given the knight's lock state
    /// (`None`: no knight). Casts of other skills, and casts while a stance
    /// runs or a shield is up, are ignored.
    pub open spec fn accepts(self, event: SkillIconKind, knight_lock: Option<bool>) -> bool {
        event == SkillIconKind::Shield && self.phase == GuardPhase::Idle && knight_lock == Some(
            false,
        )
    }

    /// Handles a cast event; when it starts, the caller puts the knight in
    /// the swipe pose and adds the skill's knight lock.
    pub fn begin_cast(&mut self, event: SkillIconKind, knight_lock: Option<bool>) -> (started:
        bool)
        ensures
            started == old(self).accepts(event, knight_lock),
            final(self).phase == (if started {
                GuardPhase::Stance
            } else {
                old(self).phase
            }),
    {
        let busy = self.phase != GuardPhase::Idle;
        let started = cast_accepted(SkillIconKind::Shield, event, busy, knight_lock);
        if started {
            self.phase = GuardPhase::Stance;
        }
        started
    }

    /// The lifecycle's transition table for one frame.
    pub open spec fn next(self, view: GuardView) -> (GuardianShieldSystem, GuardStep) {
        let quiet = GuardStep { release_lock: false, appear: false, vanish: false };
        match self.phase {
            GuardPhase::Idle => (self, quiet),
            GuardPhase::Stance => if !view.stance_over {
                (self, quiet)
            } else if view.life_over {
                (
                    GuardianShieldSystem { phase: GuardPhase::Idle },
                    GuardStep { release_lock: true, appear: true, vanish: true },
                )
            } else {
                (
                    GuardianShieldSystem { phase: GuardPhase::Shielded },
                    GuardStep { release_lock: true, appear: true, vanish: false },
                )
            },
            GuardPhase::Shielded => if view.life_over {
                (
                    GuardianShieldSystem { phase: GuardPhase::Idle },
                    GuardStep { vanish: true, ..quiet },
                )
            } else {
                (self, quiet)
            },
        }
    }

    /// One frame: the stance ends into the shield, the shield ends into idle.
    pub fn update(&mut self, view: GuardView) -> (out: GuardStep)
        ensures
            (*final(self), out) == old(self).next(view),
    {
        let mut out = GuardStep { release_lock: false, appear: false, vanish: false };
        if self.phase == GuardPhase::Stance && view.stance_over {
            self.phase = GuardPhase::Shielded;
            out.release_lock = true;
            out.appear = true;
        }
        if self.phase == GuardPhase::Shielded && view.life_over {
            self.phase = GuardPhase::Idle;
            out.vanish = true;
        }
        out
    }
}

/// The state after a run of frames.
pub open spec fn guard_after(s: GuardianShieldSystem, views: Seq<GuardView>) -> GuardianShieldSystem
    decreases views.len(),
{
    if views.len() == 0 {
        s
    } else {
        guard_after(s.next(views[0]).0, views.drop_first())
    }
}

/// Lock releases over a run of frames.
pub open spec fn guard_releases(s: GuardianShieldSystem, views: Seq<GuardView>) -> nat
    decreases views.len(),
{
    if views.len() == 0 {
        0
    } else {
        let (s2, out) = s.next(views[0]);
        (if out.release_lock {
            1nat
        } else {
            0nat
        }) + guard_releases(s2, views.drop_first())
    }
}

/// The knight lock a cast takes is released exactly once: over any run of
/// frames, the lock held at the start equals the releases during the run
/// plus the lock still held at its end. A frame never releases a lock the
/// skill does not hold, and a shield only appears out of a stance.
pub proof fn lemma_guard_lock_released_once(s: GuardianShieldSystem, views: Seq<GuardView>)
    ensures
        guard_releases(s, views) + (if guard_holds_lock(guard_after(s, views)) {
            1int
        } else {
            0int
        }) == (if guard_holds_lock(s) {
            1int
        } else {
            0int
        }),
    decreases views.len(),
{
    if views.len() > 0 {
        lemma_guard_lock_released_once(s.next(views[0]).0, views.drop_first());
    }
}

/// A shield appears only at the end of a stance, and while the stance runs
/// or the shield is up no cast is accepted.
pub proof fn lemma_guard_one_shield_at_a_time(
    s: GuardianShieldSystem,
    view: GuardView,
    event: SkillIconKind,
    knight_lock: Option<bool>,
)
    ensures
        s.next(view).1.appear ==> s.phase == GuardPhase::Stance,
        s.phase != GuardPhase::Idle ==> !s.accepts(event, knight_lock),
{
}

} // verus!
