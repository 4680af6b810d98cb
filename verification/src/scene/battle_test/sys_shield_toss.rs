//! Shield Toss: the thrown disc flies until it detects a ram head, glides a
//! little further, then grinds in place dealing a fixed number of damage
//! rounds before it vanishes.

use vstd::prelude::*;
use crate::entity::skill::SkillIconKind;
use crate::scene::battle_test::sys_skill::cast_accepted;

verus! {

/// Damage rounds one disc deals while grinding.
pub const DISC_ROUNDS: u32 = 5;

/// Flat damage of one round.
pub const DISC_DAMAGE: i32 = 10;

/// The disc's life phase.
#[derive(Clone, Copy, PartialEq, Eq, Debug, Structural)]
pub enum DiscPhase {
    /// Travelling until an enemy is detected.
    Flying,
    /// Carrying forward a little after detection.
    Gliding,
    /// Stationary, dealing damage each round.
    Grinding,
}

/// The discrete state of a thrown disc.
#[derive(Clone, Copy, PartialEq, Eq, Debug, Structural)]
pub struct ShieldDisc {
    pub phase: DiscPhase,
    /// Damage rounds still to come while grinding.
    pub rounds_left: u32,
}

/// What the caller measured for the disc this frame.
#[derive(Clone, Copy, PartialEq, Eq, Debug, Structural)]
pub struct DiscView {
    /// The flying disc overlaps a ram head's pixels.
    pub hit_detected: bool,
    /// The flying disc has travelled its full range.
    pub out_of_range: bool,
    /// The glide distance is used up.
    pub glide_done: bool,
    /// Round ticks that came due on the grind timer this frame.
    pub round_ticks: u32,
}

/// The effects of one frame of the disc.
#[derive(Clone, Copy, PartialEq, Eq, Debug, Structural)]
pub struct DiscStep {
    /// Start gliding (the caller sets the glide distance).
    pub start_glide: bool,
    /// Start grinding (the caller zeroes the grind timers).
    pub start_grind: bool,
    /// Damage rounds to apply now.
    pub rounds: u32,
    /// Remove the disc.
    pub despawn: bool,
}

/// Rounds a disc in this state may still deal.
pub open spec fn rounds_to_come(d: ShieldDisc) -> int {
    match d.phase {
        DiscPhase::Grinding => d.rounds_left as int,
        _ => DISC_ROUNDS as int,
    }
}

impl ShieldDisc {
    /// A freshly thrown disc flies.
    pub fn new() -> (d: ShieldDisc)
        ensures
            d.phase == DiscPhase::Flying,
            d.rounds_left == 0,
    {
        ShieldDisc { phase: DiscPhase::Flying, rounds_left: 0 }
    }

    /// A grinding disc never holds more than the full set of rounds.
    pub open spec fn wf(self) -> bool {
        self.phase == DiscPhase::Grinding ==> self.rounds_left < DISC_ROUNDS
    }

    /// The disc's transition table: a flying disc starts gliding when it
    /// detects a ram head, and vanishes once out of range; a gliding disc
    /// starts grinding when its glide is used up, dealing the first round at
    /// once; a grinding disc deals the rounds that come due, up to what is
    /// left, and vanishes after the last one.
    pub open spec fn next(self, view: DiscView) -> (ShieldDisc, DiscStep) {
        let quiet = DiscStep { start_glide: false, start_grind: false, rounds: 0, despawn: false };
        match self.phase {
            DiscPhase::Flying => if view.hit_detected {
                (ShieldDisc { phase: DiscPhase::Gliding, ..self }, DiscStep { start_glide: true, ..quiet })
            } else {
                (self, DiscStep { despawn: view.out_of_range, ..quiet })
            },
            DiscPhase::Gliding => if view.glide_done {
                (
                    ShieldDisc { phase: DiscPhase::Grinding, rounds_left: (DISC_ROUNDS - 1) as u32 },
                    DiscStep { start_grind: true, rounds: 1, ..quiet },
                )
            } else {
                (self, quiet)
            },
            DiscPhase::Grinding => {
                let n = if view.round_ticks < self.rounds_left {
                    view.round_ticks
                } else {
                    self.rounds_left
                };
                let left = (self.rounds_left - n) as u32;
                (
                    ShieldDisc { rounds_left: left, ..self },
                    DiscStep { rounds: n, despawn: left == 0, ..quiet },
                )
            },
        }
    }

    /// One frame of the disc.
    pub fn update(&mut self, view: DiscView) -> (out: DiscStep)
        requires
            old(self).wf(),
        ensures
            final(self).wf(),
            (*final(self), out) == old(self).next(view),
    {
        let mut out = DiscStep { start_glide: false, start_grind: false, rounds: 0, despawn: false };
        match self.phase {
            DiscPhase::Flying => {
                if view.hit_detected {
                    self.phase = DiscPhase::Gliding;
                    out.start_glide = true;
                } else if view.out_of_range {
                    out.despawn = true;
                }
            },
            DiscPhase::Gliding => {
                if view.glide_done {
                    self.phase = DiscPhase::Grinding;
                    self.rounds_left = DISC_ROUNDS - 1;
                    out.start_grind = true;
                    out.rounds = 1;
                }
            },
            DiscPhase::Grinding => {
                let n = if view.round_ticks < self.rounds_left {
                    view.round_ticks
                } else {
                    self.rounds_left
                };
                self.rounds_left = self.rounds_left - n;
                out.rounds = n;
                if self.rounds_left == 0 {
                    out.despawn = true;
                }
            },
        }
        out
    }
}


/// Damage rounds a disc deals over a series of frames, until it vanishes.
pub open spec fn rounds_dealt(d: ShieldDisc, views: Seq<DiscView>) -> nat
    decreases views.len(),
{
    if views.len() == 0 {
        0
    } else {
        let (d2, out) = d.next(views[0]);
        out.rounds as nat + if out.despawn {
            0nat
        } else {
            rounds_dealt(d2, views.drop_first())
        }
    }
}

/// Every frame's rounds come out of what the disc may still deal.
pub proof fn lemma_rounds_accounted(d: ShieldDisc, view: DiscView)
    requires
        d.wf(),
    ensures
        d.next(view).0.wf(),
        d.next(view).1.rounds + (if d.next(view).1.despawn {
            0
        } else {
            rounds_to_come(d.next(view).0)
        }) <= rounds_to_come(d),
{
}

/// A thrown disc deals at most `DISC_ROUNDS` damage rounds over its whole
/// life, however the frames fall.
pub proof fn lemma_disc_round_limit(views: Seq<DiscView>)
    ensures
        rounds_dealt(ShieldDisc { phase: DiscPhase::Flying, rounds_left: 0 }, views)
            <= DISC_ROUNDS,
{
    lemma_rounds_bounded(ShieldDisc { phase: DiscPhase::Flying, rounds_left: 0 }, views);
}

/// Whether the disc vanishes within a run of frames.
pub open spec fn disc_vanishes(d: ShieldDisc, views: Seq<DiscView>) -> bool
    decreases views.len(),
{
    if views.len() == 0 {
        false
    } else {
        let (d2, out) = d.next(views[0]);
        out.despawn || disc_vanishes(d2, views.drop_first())
    }
}

/// A disc that has found a ram head deals all its rounds before it vanishes:
/// over any run of frames in which it vanishes, a gliding disc deals exactly
/// `DISC_ROUNDS` rounds, and a grinding one exactly the rounds it has left.
pub proof fn lemma_disc_deals_every_round(d: ShieldDisc, views: Seq<DiscView>)
    requires
        d.wf(),
        d.phase != DiscPhase::Flying,
        disc_vanishes(d, views),
    ensures
        rounds_dealt(d, views) == rounds_to_come(d),
        d.phase == DiscPhase::Gliding ==> rounds_dealt(d, views) == DISC_ROUNDS,
    decreases views.len(),
{
    let (d2, out) = d.next(views[0]);
    if !out.despawn {
        lemma_disc_deals_every_round(d2, views.drop_first());
    }
}

/// A thrown disc that vanishes has dealt either no round (it flew out of
/// range without finding a ram head) or exactly `DISC_ROUNDS`.
pub proof fn lemma_thrown_disc_rounds(views: Seq<DiscView>)
    requires
        disc_vanishes(ShieldDisc { phase: DiscPhase::Flying, rounds_left: 0 }, views),
    ensures
        rounds_dealt(ShieldDisc { phase: DiscPhase::Flying, rounds_left: 0 }, views) == 0
            || rounds_dealt(ShieldDisc { phase: DiscPhase::Flying, rounds_left: 0 }, views)
            == DISC_ROUNDS,
    decreases views.len(),
{
    let d = ShieldDisc { phase: DiscPhase::Flying, rounds_left: 0 };
    let (d2, out) = d.next(views[0]);
    if !out.despawn {
        if d2.phase == DiscPhase::Flying {
            lemma_thrown_disc_rounds(views.drop_first());
        } else {
            lemma_disc_deals_every_round(d2, views.drop_first());
        }
    }
}

proof fn lemma_rounds_bounded(d: ShieldDisc, views: Seq<DiscView>)
    requires
        d.wf(),
    ensures
        rounds_dealt(d, views) <= rounds_to_come(d),
    decreases views.len(),
{
    if views.len() > 0 {
        lemma_rounds_accounted(d, views[0]);
        lemma_rounds_bounded(d.next(views[0]).0, views.drop_first());
    }
}

/// The Shield Toss skill: a cast holds the knight in the throw stance
/// briefly, throws one disc, and starts a cooldown.
#[derive(Clone, Copy, PartialEq, Eq, Debug, Structural)]
pub struct ShieldTossSystem {
    /// The thrown disc, while it is out.
    pub disc: Option<ShieldDisc>,
    /// The skill holds the knight's lock (throw stance).
    pub stancing: bool,
    /// The cooldown after the last cast is still running.
    pub cooling: bool,
}

/// What the caller measured this frame.
#[derive(Clone, Copy, PartialEq, Eq, Debug, Structural)]
pub struct TossView {
    /// The cooldown ran out this frame.
    pub cooldown_over: bool,
    /// The stance time ran out this frame.
    pub stance_over: bool,
    /// What the caller measured for the disc, if one is out.
    pub disc: DiscView,
}

/// The effects of one frame of the skill.
#[derive(Clone, Copy, PartialEq, Eq, Debug, Structural)]
pub struct TossStep {
    /// Remove the skill's knight lock and return the knight to idle.
    pub release_lock: bool,
    /// The disc's own step, if a disc was out.
    pub disc: Option<DiscStep>,
}

impl ShieldTossSystem {
    /// No disc, no stance, no cooldown.
    pub fn new() -> (s: ShieldTossSystem)
        ensures
            s.disc is None,
            !s.stancing,
            !s.cooling,
    {
        ShieldTossSystem { disc: None, stancing: false, cooling: false }
    }

    /// Every disc the skill holds is well formed.
    pub open spec fn wf(self) -> bool {
        self.disc matches Some(d) ==> d.wf()
    }

    /// Whether a cast event throws a disc, given the knight's lock state
    /// (`None`: no knight). Casts of other skills, and casts while a disc is
    /// out, the stance runs or the cooldown runs, are ignored.
    pub open spec fn accepts(self, event: SkillIconKind, knight_lock: Option<bool>) -> bool {
        &&& event == SkillIconKind::ShieldToss
        &&& self.disc is None
        &&& !self.stancing
        &&& !self.cooling
        &&& knight_lock == Some(false)
    }

    /// Handles a cast event; when it starts, the caller adds the skill's
    /// knight lock, announces the cooldown and spawns the disc ahead of the
    /// knight along its facing.
    pub fn begin_cast(&mut self, event: SkillIconKind, knight_lock: Option<bool>) -> (started: bool)
        requires
            old(self).wf(),
        ensures
            final(self).wf(),
            started == old(self).accepts(event, knight_lock),
            *final(self) == (if started {
                ShieldTossSystem {
                    disc: Some(ShieldDisc { phase: DiscPhase::Flying, rounds_left: 0 }),
                    stancing: true,
                    cooling: true,
                }
            } else {
                *old(self)
            }),
    {
        let busy = self.disc.is_some() || self.stancing || self.cooling;
        if !cast_accepted(SkillIconKind::ShieldToss, event, busy, knight_lock) {
            return false;
        }
        self.stancing = true;
        self.cooling = true;
        self.disc = Some(ShieldDisc::new());
        true
    }

    /// The skill's transition table for one frame: the cooldown and the
    /// stance end on their timers, the disc runs its own table and is
    /// dropped when it vanishes.
    pub open spec fn next(self, view: TossView) -> (ShieldTossSystem, TossStep) {
        let release = self.stancing && view.stance_over;
        let (disc, step) = match self.disc {
            Some(d) => {
                let (d2, out) = d.next(view.disc);
                (if out.despawn {
                    None
                } else {
                    Some(d2)
                }, Some(out))
            },
            None => (None, None),
        };
        (
            ShieldTossSystem {
                disc,
                stancing: self.stancing && !release,
                cooling: self.cooling && !view.cooldown_over,
            },
            TossStep { release_lock: release, disc: step },
        )
    }

    /// One frame of the skill.
    pub fn update(&mut self, view: TossView) -> (out: TossStep)
        requires
            old(self).wf(),
        ensures
            final(self).wf(),
            (*final(self), out) == old(self).next(view),
    {
        if view.cooldown_over {
            self.cooling = false;
        }
        let mut release = false;
        if self.stancing && view.stance_over {
            self.stancing = false;
            release = true;
        }
        let step = match self.disc {
            Some(d) => {
                let mut d2 = d;
                let out = d2.update(view.disc);
                self.disc = if out.despawn {
                    None
                } else {
                    Some(d2)
                };
                Some(out)
            },
            None => None,
        };
        TossStep { release_lock: release, disc: step }
    }
}

/// The state after a run of frames.
pub open spec fn toss_after(s: ShieldTossSystem, views: Seq<TossView>) -> ShieldTossSystem
    decreases views.len(),
{
    if views.len() == 0 {
        s
    } else {
        toss_after(s.next(views[0]).0, views.drop_first())
    }
}

/// Lock releases over a run of frames.
pub open spec fn toss_releases(s: ShieldTossSystem, views: Seq<TossView>) -> nat
    decreases views.len(),
{
    if views.len() == 0 {
        0
    } else {
        let (s2, out) = s.next(views[0]);
        (if out.release_lock {
            1nat
        } else {
            0nat
        }) + toss_releases(s2, views.drop_first())
    }
}

/// The knight lock a throw takes is released exactly once: over any run of
/// frames, the lock held at the start equals the releases during the run
/// plus the lock still held at its end. No run of frames without a cast
/// brings a disc out.
pub proof fn lemma_toss_lock_released_once(s: ShieldTossSystem, views: Seq<TossView>)
    ensures
        toss_releases(s, views) + (if toss_after(s, views).stancing {
            1int
        } else {
            0int
        }) == (if s.stancing {
            1int
        } else {
            0int
        }),
        s.disc is None ==> toss_after(s, views).disc is None,
    decreases views.len(),
{
    if views.len() > 0 {
        lemma_toss_lock_released_once(s.next(views[0]).0, views.drop_first());
    }
}

} // verus!
