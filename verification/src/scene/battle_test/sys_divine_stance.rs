//! Divine Stance: a cast holds the knight in the thrust pose for a moment and
//! lays a healing zone under its feet; each heal tick while the knight stands
//! inside restores a share of its maximum hit points, never beyond the
//! maximum. A short cooldown follows every cast. The caller runs the timers
//! and the effects; this is the lifecycle that decides what happens when.

use vstd::prelude::*;
use crate::entity::skill::SkillIconKind;
use crate::scene::battle_test::sys_skill::cast_accepted;

verus! {

/// What a heal tick of `tick` points restores to a knight at `hp` of
/// `max_hp`: the tick, capped by what is missing; nothing at full health
/// or when nothing would be restored.
pub open spec fn healed_by(hp: int, max_hp: int, tick: int) -> Option<int> {
    let missing = max_hp - hp;
    let actual = if tick < missing {
        tick
    } else {
        missing
    };
    if hp >= max_hp || actual <= 0 {
        None
    } else {
        Some(actual)
    }
}

/// Hit points a heal tick actually restores, `None` when it restores
/// nothing.
pub fn heal_amount(hp: i32, max_hp: i32, tick: i32) -> (healed: Option<i32>)
    requires
        hp < max_hp ==> max_hp - hp <= i32::MAX,
    ensures
        match healed {
            Some(a) => healed_by(hp as int, max_hp as int, tick as int) == Some(a as int),
            None => healed_by(hp as int, max_hp as int, tick as int) is None,
        },
{
    if hp >= max_hp {
        return None;
    }
    let missing = max_hp - hp;
    let actual = if tick < missing {
        tick
    } else {
        missing
    };
    if actual <= 0 {
        return None;
    }
    Some(actual)
}

/// Healing never lifts the knight above full health and always restores
/// something when it happens; a knight at full health is never healed.
pub proof fn lemma_heal_capped(hp: int, max_hp: int, tick: int)
    ensures
        healed_by(hp, max_hp, tick) matches Some(a) ==> 0 < a && hp + a <= max_hp,
        hp >= max_hp ==> healed_by(hp, max_hp, tick) is None,
{
}

/// The Divine Stance skill.
#[derive(Clone, Copy, PartialEq, Eq, Debug, Structural)]
pub struct DivineStanceSystem {
    /// The zone is on the ground.
    pub active: bool,
    /// The skill holds the knight's lock (thrust pose).
    pub locking: bool,
    /// The cooldown after the last cast is still running.
    pub cooling: bool,
}

/// What the caller measured this frame.
#[derive(Clone, Copy, PartialEq, Eq, Debug, Structural)]
pub struct StanceView {
    /// The cooldown ran out this frame.
    pub cooldown_over: bool,
    /// The lock time ran out this frame.
    pub lock_over: bool,
    /// The heal timer came due this frame.
    pub heal_due: bool,
    /// The knight's body overlaps the zone.
    pub knight_inside: bool,
    /// The zone has lasted its whole life.
    pub area_over: bool,
}

/// The effects of one frame.
#[derive(Clone, Copy, PartialEq, Eq, Debug, Structural)]
pub struct StanceStep {
    /// Remove the skill's knight lock and return the knight to idle.
    pub release_lock: bool,
    /// Restore one heal tick to the knight (see `heal_amount`).
    pub heal: bool,
    /// The zone ends: remove it and announce that the skill is no longer up.
    pub vanish: bool,
}

impl DivineStanceSystem {
    /// No zone, no lock, no cooldown.
    pub fn new() -> (s: DivineStanceSystem)
        ensures
            !s.active,
            !s.locking,
            !s.cooling,
    {
        DivineStanceSystem { active: false, locking: false, cooling: false }
    }

    /// Whether a cast event lays a zone, given the knight's lock state
    /// (`None`: no knight) and whether its body (where its feet are) was
    /// found. Casts of other skills, and casts while a zone is up, the lock
    /// is held or the cooldown runs, are ignored.
    pub open spec fn accepts(self, event: SkillIconKind, knight_lock: Option<bool>, has_body: bool) -> bool {
        &&& event == SkillIconKind::DivineStance
        &&& !self.active
        &&& !self.locking
        &&& !self.cooling
        &&& knight_lock == Some(false)
        &&& has_body
    }

    /// Handles a cast event; when it starts, the caller puts the knight in
    /// the thrust pose, adds the skill's knight lock, lays the zone, restarts
    /// the heal timer and announces the cooldown and the zone's life.
    pub fn begin_cast(&mut self, event: SkillIconKind, knight_lock: Option<bool>, has_body: bool) -> (started: bool)
        ensures
            started == old(self).accepts(event, knight_lock, has_body),
            *final(self) == (if started {
                DivineStanceSystem { active: true, locking: true, cooling: true }
            } else {
                *old(self)
            }),
    {
        let busy = self.active || self.locking || self.cooling;
        if !cast_accepted(SkillIconKind::DivineStance, event, busy, knight_lock) || !has_body {
            return false;
        }
        self.active = true;
        self.locking = true;
        self.cooling = true;
        true
    }

    /// The lifecycle's transition table for one frame: the cooldown and the
    /// lock end on their timers; while the zone is up, a due heal tick heals
    /// the knight when it stands inside; the zone ends on its own timer.
    pub open spec fn next(self, view: StanceView) -> (DivineStanceSystem, StanceStep) {
        let release = self.locking && view.lock_over;
        let heal = self.active && view.heal_due && view.knight_inside;
        let vanish = self.active && view.area_over;
        (
            DivineStanceSystem {
                active: self.active && !vanish,
                locking: self.locking && !release,
                cooling: self.cooling && !view.cooldown_over,
            },
            StanceStep { release_lock: release, heal, vanish },
        )
    }

    /// One frame of the skill.
    pub fn update(&mut self, view: StanceView) -> (out: StanceStep)
        ensures
            (*final(self), out) == old(self).next(view),
    {
        let mut out = StanceStep { release_lock: false, heal: false, vanish: false };
        if view.cooldown_over {
            self.cooling = false;
        }
        if self.locking && view.lock_over {
            self.locking = false;
            out.release_lock = true;
        }
        if self.active {
            if view.heal_due && view.knight_inside {
                out.heal = true;
            }
            if view.area_over {
                self.active = false;
                out.vanish = true;
            }
        }
        out
    }
}

/// The state after a run of frames.
pub open spec fn stance_after(s: DivineStanceSystem, views: Seq<StanceView>) -> DivineStanceSystem
    decreases views.len(),
{
    if views.len() == 0 {
        s
    } else {
        stance_after(s.next(views[0]).0, views.drop_first())
    }
}

/// Lock releases over a run of frames.
pub open spec fn stance_releases(s: DivineStanceSystem, views: Seq<StanceView>) -> nat
    decreases views.len(),
{
    if views.len() == 0 {
        0
    } else {
        let (s2, out) = s.next(views[0]);
        (if out.release_lock {
            1nat
        } else {
            0nat
        }) + stance_releases(s2, views.drop_first())
    }
}

/// Heals over a run of frames.
pub open spec fn stance_heals(s: DivineStanceSystem, views: Seq<StanceView>) -> nat
    decreases views.len(),
{
    if views.len() == 0 {
        0
    } else {
        let (s2, out) = s.next(views[0]);
        (if out.heal {
            1nat
        } else {
            0nat
        }) + stance_heals(s2, views.drop_first())
    }
}

/// The knight lock a cast takes is released exactly once: over any run of
/// frames, the lock held at the start equals the releases during the run
/// plus the lock still held at its end.
pub proof fn lemma_stance_lock_released_once(s: DivineStanceSystem, views: Seq<StanceView>)
    ensures
        stance_releases(s, views) + (if stance_after(s, views).locking {
            1int
        } else {
            0int
        }) == (if s.locking {
            1int
        } else {
            0int
        }),
    decreases views.len(),
{
    if views.len() > 0 {
        lemma_stance_lock_released_once(s.next(views[0]).0, views.drop_first());
    }
}

/// Without a zone there is no healing: from a state with no zone up, no run
/// of frames heals the knight.
pub proof fn lemma_no_heal_without_zone(s: DivineStanceSystem, views: Seq<StanceView>)
    requires
        !s.active,
    ensures
        stance_heals(s, views) == 0,
        !stance_after(s, views).active,
    decreases views.len(),
{
    if views.len() > 0 {
        lemma_no_heal_without_zone(s.next(views[0]).0, views.drop_first());
    }
}

/// A cast is refused while the zone is up, the lock is held or the cooldown
/// runs; and a frame heals only when a heal tick came due with the knight
/// inside a zone that is up.
pub proof fn lemma_stance_exclusive(
    s: DivineStanceSystem,
    view: StanceView,
    event: SkillIconKind,
    knight_lock: Option<bool>,
    has_body: bool,
)
    ensures
        (s.active || s.locking || s.cooling) ==> !s.accepts(event, knight_lock, has_body),
        s.next(view).1.heal <==> (s.active && view.heal_due && view.knight_inside),
{
}

} // verus!
