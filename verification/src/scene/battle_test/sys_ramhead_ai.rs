//! Ram head behaviour: a ram stalks its prey, winds up (telegraphed), charges
//! in a locked direction and recovers; contact while stalking or charging
//! starts a melee attack. The caller measures distances and runs the timers,
//! and reports what it measured; this module decides.

use vstd::prelude::*;

verus! {

/// The ram head's movement mode. It never stands still by design.
#[derive(Clone, Copy, PartialEq, Eq, Debug, Structural)]
pub enum RamMode {
    Stalk,
    Windup,
    Charge,
    Recover,
}

/// The discrete part of a ram's brain.
#[derive(Clone, Copy, PartialEq, Eq, Debug, Structural)]
pub struct RamBrain {
    pub mode: RamMode,
    /// Index into the walk frames.
    pub walk_step: usize,
    /// Index into the attack frames.
    pub attack_step: usize,
    /// A melee attack is active (its attack rect is open).
    pub attacking: bool,
    /// The hero or peon being attacked.
    pub attack_target: Option<u64>,
}

/// What the caller measured for the ram this frame.
#[derive(Clone, Copy, PartialEq, Eq, Debug, Structural)]
pub struct RamSenses {
    /// The active attack's timer ran out this frame.
    pub attack_expired: bool,
    /// Prey is within charge range and the charge cooldown is over.
    pub charge_ready: bool,
    /// The current Windup, Charge or Recover period ran out this frame.
    pub mode_time_up: bool,
    /// The attack cooldown is over.
    pub attack_ready: bool,
    /// The prey whose rect overlaps the ram's forward attack rect, if any.
    pub target_in_front: Option<u64>,
    /// The current animation frame has been shown for its full duration.
    pub frame_due: bool,
    /// The ram moves faster than the walk-animation threshold.
    pub moving: bool,
}

/// Which animation frame the ram shows.
#[derive(Clone, Copy, PartialEq, Eq, Debug, Structural)]
pub enum RamFrame {
    Attack(usize),
    Walk(usize),
    Standing,
}

/// The outcome of one frame for a ram.
#[derive(Clone, Copy, PartialEq, Eq, Debug, Structural)]
pub struct RamStep {
    pub brain: RamBrain,
    /// The mode entered this frame, so the caller can start its timer
    /// (and, entering Charge, lock the charge direction; entering Recover,
    /// start the charge cooldown).
    pub entered: Option<RamMode>,
    /// A melee attack starts on this prey: fire the attack and hit events,
    /// start the attack timer and cooldown.
    pub strike: Option<u64>,
    pub frame: RamFrame,
}

impl RamBrain {
    /// A fresh ram stalks.
    pub fn new() -> (b: RamBrain)
        ensures
            b.mode == RamMode::Stalk,
            b.walk_step == 0,
            b.attack_step == 0,
            !b.attacking,
            b.attack_target is None,
    {
        RamBrain {
            mode: RamMode::Stalk,
            walk_step: 0,
            attack_step: 0,
            attacking: false,
            attack_target: None,
        }
    }

    /// The steps index their animations, and only an attacking ram has a
    /// victim.
    pub open spec fn wf(self, walk_len: usize, attack_len: usize) -> bool {
        &&& self.walk_step < walk_len
        &&& self.attack_step < attack_len
        &&& !self.attacking ==> self.attack_target is None
    }

    /// The movement mode after the mode machine runs, before any attack.
    pub open spec fn mode_after(self, attacking: bool, senses: RamSenses) -> RamMode {
        match self.mode {
            RamMode::Stalk => if senses.charge_ready && !attacking {
                RamMode::Windup
            } else {
                RamMode::Stalk
            },
            RamMode::Windup => if senses.mode_time_up {
                RamMode::Charge
            } else {
                RamMode::Windup
            },
            RamMode::Charge => if senses.mode_time_up {
                RamMode::Recover
            } else {
                RamMode::Charge
            },
            RamMode::Recover => if senses.mode_time_up {
                RamMode::Stalk
            } else {
                RamMode::Recover
            },
        }
    }

    /// One frame of the ram's brain: the active attack may expire, the mode
    /// machine runs, a melee attack may start (which ends a charge), and the
    /// animation advances.
    pub open spec fn next(self, senses: RamSenses, walk_len: usize, attack_len: usize) -> RamStep {
        let still = self.attacking && !senses.attack_expired;
        let mode1 = self.mode_after(still, senses);
        let can = (mode1 == RamMode::Stalk || mode1 == RamMode::Charge) && senses.attack_ready
            && !still;
        let strike = if can {
            senses.target_in_front
        } else {
            None
        };
        let ends_charge = strike is Some && mode1 == RamMode::Charge;
        let mode2 = if ends_charge {
            RamMode::Recover
        } else {
            mode1
        };
        let entered = if ends_charge {
            Some(RamMode::Recover)
        } else if mode1 != self.mode {
            Some(mode1)
        } else {
            None
        };
        let attacking = still || strike is Some;
        let target = if strike is Some {
            strike
        } else if still {
            self.attack_target
        } else {
            None
        };
        let attack_step = if strike is Some {
            0
        } else {
            self.attack_step
        };
        let frame = if attacking {
            RamFrame::Attack(attack_step)
        } else if senses.moving {
            RamFrame::Walk(self.walk_step)
        } else {
            RamFrame::Standing
        };
        let attack_step2 = if attacking && senses.frame_due {
            ((attack_step + 1) % (attack_len as int)) as usize
        } else {
            attack_step
        };
        let walk_step2 = if !attacking && senses.moving && senses.frame_due {
            ((self.walk_step + 1) % (walk_len as int)) as usize
        } else {
            self.walk_step
        };
        RamStep {
            brain: RamBrain {
                mode: mode2,
                walk_step: walk_step2,
                attack_step: attack_step2,
                attacking,
                attack_target: target,
            },
            entered,
            strike,
            frame,
        }
    }

    /// One frame of the ram's brain; `walk_len` and `attack_len` are the
    /// lengths of the walk and attack animations.
    pub fn step(self, senses: RamSenses, walk_len: usize, attack_len: usize) -> (out: RamStep)
        requires
            self.wf(walk_len, attack_len),
        ensures
            out == self.next(senses, walk_len, attack_len),
            out.brain.wf(walk_len, attack_len),
    {
        let mut b = self;
        let mut entered: Option<RamMode> = None;

        if b.attacking && senses.attack_expired {
            b.attacking = false;
            b.attack_target = None;
        }
        let attacking = b.attacking;

        match b.mode {
            RamMode::Stalk => {
                if senses.charge_ready && !attacking {
                    b.mode = RamMode::Windup;
                    entered = Some(RamMode::Windup);
                }
            },
            RamMode::Windup => {
                if senses.mode_time_up {
                    b.mode = RamMode::Charge;
                    entered = Some(RamMode::Charge);
                }
            },
            RamMode::Charge => {
                if senses.mode_time_up {
                    b.mode = RamMode::Recover;
                    entered = Some(RamMode::Recover);
                }
            },
            RamMode::Recover => {
                if senses.mode_time_up {
                    b.mode = RamMode::Stalk;
                    entered = Some(RamMode::Stalk);
                }
            },
        }

        let mut strike: Option<u64> = None;
        let can_attack = (b.mode == RamMode::Stalk || b.mode == RamMode::Charge)
            && senses.attack_ready && !attacking;
        if can_attack {
            if let Some(target) = senses.target_in_front {
                b.attacking = true;
                b.attack_step = 0;
                b.attack_target = Some(target);
                strike = Some(target);
                if b.mode == RamMode::Charge {
                    b.mode = RamMode::Recover;
                    entered = Some(RamMode::Recover);
                }
            }
        }

        let frame = if b.attacking {
            let f = RamFrame::Attack(b.attack_step);
            if senses.frame_due {
                b.attack_step = (b.attack_step + 1) % attack_len;
            }
            f
        } else if senses.moving {
            let f = RamFrame::Walk(b.walk_step);
            if senses.frame_due {
                b.walk_step = (b.walk_step + 1) % walk_len;
            }
            f
        } else {
            RamFrame::Standing
        };

        RamStep { brain: b, entered, strike, frame }
    }
}

/// Damage of a ram's melee attack: its strength (1 when it has no stats),
/// never below 1.
pub fn ram_attack_damage(strength: Option<i32>) -> (d: i32)
    ensures
        d == match strength {
            Some(s) => if s > 1 { s } else { 1 },
            None => 1,
        },
        d >= 1,
{
    let s = match strength {
        Some(s) => s,
        None => 1,
    };
    if s > 1 { s } else { 1 }
}


/// A ram never starts a new attack while its current one is still active.
pub proof fn lemma_no_overlapping_attacks(
    b: RamBrain,
    senses: RamSenses,
    walk_len: usize,
    attack_len: usize,
)
    requires
        b.attacking,
        !senses.attack_expired,
    ensures
        b.next(senses, walk_len, attack_len).strike is None,
        b.next(senses, walk_len, attack_len).brain.attacking,
        b.next(senses, walk_len, attack_len).brain.attack_target == b.attack_target,
{
}

/// A ram attacks only while stalking or charging, and connecting during a
/// charge ends the charge: the ram goes straight into recovery.
pub proof fn lemma_strike_modes(b: RamBrain, senses: RamSenses, walk_len: usize, attack_len: usize)
    requires
        b.next(senses, walk_len, attack_len).strike is Some,
    ensures
        b.mode_after(b.attacking && !senses.attack_expired, senses) == RamMode::Stalk
            || b.mode_after(b.attacking && !senses.attack_expired, senses) == RamMode::Charge,
        b.next(senses, walk_len, attack_len).brain.mode == RamMode::Stalk || b.next(
            senses,
            walk_len,
            attack_len,
        ).brain.mode == RamMode::Recover,
{
}

/// The charge cycle only runs forward: stalk, wind-up, charge, recover,
/// stalk; a wind-up never begins while the ram is attacking.
pub proof fn lemma_mode_cycle(b: RamBrain, attacking: bool, senses: RamSenses)
    ensures
        b.mode_after(attacking, senses) == b.mode || b.mode_after(attacking, senses) == match b.mode {
            RamMode::Stalk => RamMode::Windup,
            RamMode::Windup => RamMode::Charge,
            RamMode::Charge => RamMode::Recover,
            RamMode::Recover => RamMode::Stalk,
        },
        attacking && b.mode == RamMode::Stalk ==> b.mode_after(attacking, senses) == RamMode::Stalk,
{
}

/// The ram's animations advance one frame per elapsed frame period and
/// loop: the attack frame shown is the brain's attack step (the first frame
/// when an attack starts), and after it the step moves on by one, wrapping at
/// the attack's length, exactly when the frame period is over; the same
/// holds of the walk frames while the ram moves without attacking. A ram
/// shows its attack exactly while it is attacking.
pub proof fn lemma_animation_advances(
    b: RamBrain,
    senses: RamSenses,
    walk_len: usize,
    attack_len: usize,
)
    requires
        b.wf(walk_len, attack_len),
    ensures
        ({
            let out = b.next(senses, walk_len, attack_len);
            &&& (out.frame is Attack <==> out.brain.attacking)
            &&& (out.strike is Some ==> out.frame == RamFrame::Attack(0))
            &&& (out.frame matches RamFrame::Attack(k) ==> out.brain.attack_step == if senses.frame_due {
                (k + 1) % (attack_len as int)
            } else {
                k as int
            })
            &&& (out.strike is None ==> (out.frame matches RamFrame::Attack(k) ==> k == b.attack_step))
            &&& (out.frame matches RamFrame::Walk(k) ==> k == b.walk_step && out.brain.walk_step == if senses.frame_due {
                (k + 1) % (walk_len as int)
            } else {
                k as int
            })
            &&& (!out.brain.attacking && senses.moving ==> out.frame == RamFrame::Walk(b.walk_step))
        }),
{
}

/// When a ram strikes: a melee attack starts on the prey in front exactly
/// when, after the mode machine, the ram stalks or charges, its attack
/// cooldown is over and no attack of its own is still running. The attack
/// runs until its timer expires and keeps its victim; an expired attack
/// leaves the ram without one.
pub proof fn lemma_strike_rule(b: RamBrain, senses: RamSenses, walk_len: usize, attack_len: usize)
    ensures
        ({
            let still = b.attacking && !senses.attack_expired;
            let m = b.mode_after(still, senses);
            let out = b.next(senses, walk_len, attack_len);
            &&& out.strike == (if (m == RamMode::Stalk || m == RamMode::Charge) && senses.attack_ready
                && !still {
                senses.target_in_front
            } else {
                None::<u64>
            })
            &&& out.strike matches Some(t) ==> out.brain.attacking && out.brain.attack_target == Some(t)
            &&& (b.attacking && senses.attack_expired && out.strike is None) ==> !out.brain.attacking
                && out.brain.attack_target is None
            &&& (!b.attacking && out.strike is None) ==> !out.brain.attacking
        }),
{
}

} // verus!
