//! Blade Barrage: the knight summons a fan of swords that appear one after
//! another, materialize in place, then fly forward. A sword strikes the
//! first ram head it cuts, slices on a little, fades and vanishes; a sword
//! that strikes nothing vanishes at the end of its range.

use vstd::prelude::*;
use crate::entity::skill::SkillIconKind;
use crate::scene::battle_test::sys_skill::cast_accepted;

verus! {

/// Swords summoned per cast.
pub const SWORD_COUNT: usize = 3;

/// Flat damage of a sword's strike.
pub const SWORD_DAMAGE: i32 = 10;

/// Where a sword is in its life.
#[derive(Clone, Copy, PartialEq, Eq, Debug, Structural)]
pub enum SwordPhase {
    /// Waiting out its staggered delay, invisible.
    Waiting,
    /// Materializing in place.
    Appearing,
    /// Flying forward with an active blade.
    Flying,
    /// Carrying its cut forward after a strike.
    Slicing,
    /// Stopped, fading out.
    Fading,
}

/// The discrete state of one summoned sword.
#[derive(Clone, Copy, PartialEq, Eq, Debug, Structural)]
pub struct FlyingSword {
    pub phase: SwordPhase,
}

/// What the caller measured for the sword this frame.
#[derive(Clone, Copy, PartialEq, Eq, Debug, Structural)]
pub struct SwordView {
    /// The staggered delay ran out.
    pub delay_over: bool,
    /// The materialization time is complete (the sword moves this frame).
    pub appeared: bool,
    /// The first ram head the moving blade cuts, if any.
    pub hit: Option<u64>,
    /// The sword has travelled its full range.
    pub out_of_range: bool,
    /// The slice distance is used up.
    pub slice_done: bool,
    /// The fade-out is complete.
    pub fade_done: bool,
}

/// The effects of one frame of a sword.
#[derive(Clone, Copy, PartialEq, Eq, Debug, Structural)]
pub struct SwordStep {
    /// The sword moves this frame; an unstruck blade's hit rect follows it, a
    /// struck sword's stays closed for good.
    pub moves: bool,
    /// The sword strikes this ram head: damage it, close the blade.
    pub strike: Option<u64>,
    /// Remove the sword.
    pub despawn: bool,
}

/// Strikes a sword in this phase may still deal.
pub open spec fn strikes_to_come(s: FlyingSword) -> int {
    match s.phase {
        SwordPhase::Slicing | SwordPhase::Fading => 0,
        _ => 1,
    }
}

impl FlyingSword {
    /// A summoned sword waits for its turn.
    pub fn new() -> (s: FlyingSword)
        ensures
            s.phase == SwordPhase::Waiting,
    {
        FlyingSword { phase: SwordPhase::Waiting }
    }

    /// The frame of a sword that is out (appearing or flying): while it
    /// materializes it stays put and vanishes only out of range; once it
    /// moves, it strikes the first ram head its blade cuts and slices on, or
    /// flies on and vanishes at the end of its range.
    pub open spec fn out_next(self, view: SwordView) -> (FlyingSword, SwordStep) {
        let quiet = SwordStep { moves: false, strike: None, despawn: false };
        if self.phase == SwordPhase::Appearing && !view.appeared {
            (self, SwordStep { despawn: view.out_of_range, ..quiet })
        } else {
            match view.hit {
                Some(id) => (
                    FlyingSword { phase: SwordPhase::Slicing },
                    SwordStep { moves: true, strike: Some(id), despawn: false },
                ),
                None => (
                    FlyingSword { phase: SwordPhase::Flying },
                    SwordStep { moves: true, strike: None, despawn: view.out_of_range },
                ),
            }
        }
    }

    /// The sword's transition table. A sword whose delay runs out starts
    /// appearing in that same frame.
    pub open spec fn next(self, view: SwordView) -> (FlyingSword, SwordStep) {
        let quiet = SwordStep { moves: false, strike: None, despawn: false };
        match self.phase {
            SwordPhase::Waiting => if view.delay_over {
                FlyingSword { phase: SwordPhase::Appearing }.out_next(view)
            } else {
                (self, quiet)
            },
            SwordPhase::Appearing | SwordPhase::Flying => self.out_next(view),
            SwordPhase::Slicing => if view.slice_done {
                (
                    FlyingSword { phase: SwordPhase::Fading },
                    SwordStep { moves: true, strike: None, despawn: view.fade_done },
                )
            } else {
                (self, SwordStep { moves: true, ..quiet })
            },
            SwordPhase::Fading => (self, SwordStep { despawn: view.fade_done, ..quiet }),
        }
    }

    /// One frame of the sword.
    pub fn update(&mut self, view: SwordView) -> (out: SwordStep)
        ensures
            (*final(self), out) == old(self).next(view),
    {
        let mut out = SwordStep { moves: false, strike: None, despawn: false };
        if self.phase == SwordPhase::Waiting {
            if !view.delay_over {
                return out;
            }
            self.phase = SwordPhase::Appearing;
        }
        match self.phase {
            SwordPhase::Waiting => {},
            SwordPhase::Appearing | SwordPhase::Flying => {
                if self.phase == SwordPhase::Appearing && !view.appeared {
                    out.despawn = view.out_of_range;
                } else {
                    out.moves = true;
                    match view.hit {
                        Some(id) => {
                            self.phase = SwordPhase::Slicing;
                            out.strike = Some(id);
                        },
                        None => {
                            self.phase = SwordPhase::Flying;
                            out.despawn = view.out_of_range;
                        },
                    }
                }
            },
            SwordPhase::Slicing => {
                out.moves = true;
                if view.slice_done {
                    self.phase = SwordPhase::Fading;
                    out.despawn = view.fade_done;
                }
            },
            SwordPhase::Fading => {
                out.despawn = view.fade_done;
            },
        }
        out
    }
}

/// The first of the ram heads (in store order) that a blade cuts, given
/// whether each one is cut.
pub fn first_cut(ids: &Vec<u64>, cut: &Vec<bool>) -> (hit: Option<u64>)
    requires
        ids@.len() == cut@.len(),
    ensures
        match hit {
            Some(id) => exists|i: int|
                0 <= i < cut@.len() && cut@[i] && ids@[i] == id && forall|j: int|
                    0 <= j < i ==> !cut@[j],
            None => forall|j: int| 0 <= j < cut@.len() ==> !cut@[j],
        },
{
    let mut i: usize = 0;
    while i < ids.len()
        invariant
            i <= ids@.len(),
            ids@.len() == cut@.len(),
            forall|j: int| 0 <= j < i ==> !cut@[j],
        decreases ids.len() - i,
    {
        if cut[i] {
            return Some(ids[i]);
        }
        i = i + 1;
    }
    None
}

/// Strikes a sword deals over a series of frames, until it vanishes.
pub open spec fn strikes_dealt(s: FlyingSword, views: Seq<SwordView>) -> nat
    decreases views.len(),
{
    if views.len() == 0 {
        0
    } else {
        let (s2, out) = s.next(views[0]);
        (if out.strike is Some {
            1nat
        } else {
            0nat
        }) + if out.despawn {
            0nat
        } else {
            strikes_dealt(s2, views.drop_first())
        }
    }
}

proof fn lemma_strikes_bounded(s: FlyingSword, views: Seq<SwordView>)
    ensures
        strikes_dealt(s, views) <= strikes_to_come(s),
    decreases views.len(),
{
    if views.len() > 0 {
        lemma_strikes_bounded(s.next(views[0]).0, views.drop_first());
    }
}

/// A sword strikes at most once over its whole life: after its strike it
/// only slices on, fades and vanishes.
pub proof fn lemma_one_strike_per_sword(views: Seq<SwordView>)
    ensures
        strikes_dealt(FlyingSword { phase: SwordPhase::Waiting }, views) <= 1,
{
    lemma_strikes_bounded(FlyingSword { phase: SwordPhase::Waiting }, views);
}

/// The swords that stay after a frame, in their order, each in its new
/// state: those whose step does not despawn them.
pub open spec fn surviving(swords: Seq<FlyingSword>, views: Seq<SwordView>) -> Seq<FlyingSword>
    decreases swords.len(),
{
    if swords.len() == 0 {
        Seq::empty()
    } else {
        let n = swords.len() - 1;
        let (s2, out) = swords[n].next(views[n]);
        surviving(swords.drop_last(), views.drop_last()) + (if out.despawn {
            Seq::empty()
        } else {
            seq![s2]
        })
    }
}

/// The Blade Barrage skill: a cast summons the swords and holds the knight
/// in the thrust pose for a moment; the skill is busy until every sword is
/// gone.
#[derive(Clone, Debug, PartialEq, Eq)]
pub struct SwordsSkillSystem {
    /// The summoned swords still in play, in summoning order.
    pub swords: Vec<FlyingSword>,
    /// The skill holds the knight's lock (thrust pose).
    pub locking: bool,
}

/// The effects of one frame of the skill.
#[derive(Clone, Debug, PartialEq, Eq)]
pub struct SwordsStep {
    /// Remove the skill's knight lock and return the knight to idle.
    pub release_lock: bool,
    /// Each sword's step, in the order of the swords at the frame's start.
    pub steps: Vec<SwordStep>,
}

impl SwordsSkillSystem {
    /// No swords, no lock.
    pub fn new() -> (s: SwordsSkillSystem)
        ensures
            s.swords@.len() == 0,
            !s.locking,
    {
        SwordsSkillSystem { swords: Vec::new(), locking: false }
    }

    /// Whether a cast event summons swords, given the knight's lock state
    /// (`None`: no knight) and whether the knight's sword (whose texture the
    /// swords take) was found. Casts of other skills, and casts while swords
    /// are still in play, are ignored.
    pub open spec fn accepts(self, event: SkillIconKind, knight_lock: Option<bool>, has_sword: bool) -> bool {
        &&& event == SkillIconKind::Sword
        &&& self.swords@.len() == 0
        &&& knight_lock == Some(false)
        &&& has_sword
    }

    /// Handles a cast event; when it starts, the caller puts the knight in
    /// the thrust pose, adds the skill's knight lock and places the swords,
    /// which all wait for their staggered turn.
    pub fn begin_cast(&mut self, event: SkillIconKind, knight_lock: Option<bool>, has_sword: bool) -> (started: bool)
        ensures
            started == old(self).accepts(event, knight_lock, has_sword),
            started ==> final(self).locking && final(self).swords@ == Seq::new(
                SWORD_COUNT as nat,
                |i: int| FlyingSword { phase: SwordPhase::Waiting },
            ),
            !started ==> *final(self) == *old(self),
    {
        let busy = self.swords.len() > 0;
        if !cast_accepted(SkillIconKind::Sword, event, busy, knight_lock) || !has_sword {
            return false;
        }
        let mut swords: Vec<FlyingSword> = Vec::new();
        let mut i: usize = 0;
        while i < SWORD_COUNT
            invariant
                i <= SWORD_COUNT,
                swords@ == Seq::new(i as nat, |k: int| FlyingSword { phase: SwordPhase::Waiting }),
            decreases SWORD_COUNT - i,
        {
            swords.push(FlyingSword::new());
            i = i + 1;
        }
        self.swords = swords;
        self.locking = true;
        true
    }

    /// The skill's state after one frame, with `views` holding what the
    /// caller measured for each sword: with no sword left the lock is
    /// dropped silently; otherwise the lock ends on its timer and every sword
    /// runs its own table, the vanished ones leaving the play.
    pub open spec fn next_swords(self, views: Seq<SwordView>) -> Seq<FlyingSword> {
        if self.swords@.len() == 0 {
            self.swords@
        } else {
            surviving(self.swords@, views)
        }
    }

    /// Whether the frame releases the lock (see `next_swords`).
    pub open spec fn releases(self, lock_over: bool) -> bool {
        self.swords@.len() > 0 && self.locking && lock_over
    }

    /// Whether the skill still holds the lock after the frame.
    pub open spec fn locking_after(self, lock_over: bool) -> bool {
        self.locking && self.swords@.len() > 0 && !lock_over
    }

    /// One frame of the skill.
    pub fn update(&mut self, views: &Vec<SwordView>, lock_over: bool) -> (out: SwordsStep)
        requires
            views@.len() == old(self).swords@.len(),
        ensures
            final(self).swords@ == old(self).next_swords(views@),
            final(self).locking == old(self).locking_after(lock_over),
            out.release_lock == old(self).releases(lock_over),
            out.steps@.len() == old(self).swords@.len(),
            forall|i: int|
                0 <= i < out.steps@.len() ==> out.steps@[i] == (#[trigger] old(self).swords@[i]).next(
                    views@[i],
                ).1,
    {
        if self.swords.len() == 0 {
            self.locking = false;
            return SwordsStep { release_lock: false, steps: Vec::new() };
        }
        let mut release = false;
        if self.locking && lock_over {
            self.locking = false;
            release = true;
        }
        let ghost old_swords = self.swords@;
        let mut kept: Vec<FlyingSword> = Vec::new();
        let mut steps: Vec<SwordStep> = Vec::new();
        let mut i: usize = 0;
        while i < self.swords.len()
            invariant
                i <= self.swords@.len(),
                self.swords@ == old_swords,
                views@.len() == old_swords.len(),
                kept@ == surviving(old_swords.take(i as int), views@.take(i as int)),
                steps@.len() == i,
                forall|k: int|
                    0 <= k < i ==> steps@[k] == (#[trigger] old_swords[k]).next(views@[k]).1,
            decreases self.swords@.len() - i,
        {
            let mut sword = self.swords[i];
            let step = sword.update(views[i]);
            proof {
                let sw = old_swords.take(i + 1);
                let vs = views@.take(i + 1);
                assert(sw.drop_last() =~= old_swords.take(i as int));
                assert(vs.drop_last() =~= views@.take(i as int));
                assert(sw[i as int] == old_swords[i as int]);
                assert(vs[i as int] == views@[i as int]);
            }
            if !step.despawn {
                kept.push(sword);
            }
            steps.push(step);
            assert(kept@ =~= surviving(old_swords.take(i + 1), views@.take(i + 1)));
            i = i + 1;
        }
        proof {
            assert(old_swords.take(old_swords.len() as int) =~= old_swords);
            assert(views@.take(views@.len() as int) =~= views@);
        }
        self.swords = kept;
        SwordsStep { release_lock: release, steps }
    }
}

/// The lock the skill holds ends only by its release or, silently, on a
/// frame that starts with no sword left; a frame never takes the lock, and
/// never releases one the skill does not hold. So a cast's lock is released
/// at most once, and exactly once when a sword is still in play on the frame
/// its time runs out.
pub proof fn lemma_swords_lock_ends(s: SwordsSkillSystem, lock_over: bool)
    ensures
        s.locking_after(lock_over) ==> s.locking,
        s.releases(lock_over) ==> s.locking && !s.locking_after(lock_over),
        s.locking && !s.locking_after(lock_over) && !s.releases(lock_over) ==> s.swords@.len() == 0,
        s.locking && s.swords@.len() > 0 && lock_over ==> s.releases(lock_over),
{
}

} // verus!
