//! The knight's controls: steering and facing, the two-hit attack combo
//! (thrust, swipe, thrust, ...) with its windup / strike / recovery phases,
//! the short face lock after a strike, and the walk cycle. Timers run in the
//! caller, which reports when they expire.

use vstd::prelude::*;
use crate::entity::knight::{AttackKind, AttackPhase, Facing};

verus! {

/// The keys and timers the controls read this frame.
#[derive(Clone, Copy, PartialEq, Eq, Debug, Structural)]
pub struct ControlInput {
    pub left: bool,
    pub right: bool,
    pub up: bool,
    pub down: bool,
    /// Shift held: strafe without turning.
    pub shift: bool,
    /// The attack key went down this frame.
    pub attack_pressed: bool,
    /// The current attack phase's timer ran out this frame.
    pub phase_time_up: bool,
    /// The face-lock timer was still running when the frame began.
    pub lock_running: bool,
    /// The knight is mid-dash.
    pub dashing: bool,
    /// The walk frame has been shown for its full duration.
    pub walk_frame_due: bool,
    /// The knight's facing as stored, if it has one.
    pub facing: Option<Facing>,
}

/// What the knight shows this frame.
#[derive(Clone, Copy, PartialEq, Eq, Debug, Structural)]
pub enum KnightFrame {
    /// The strike frame of this attack.
    Attack(AttackKind),
    /// Standing still (the walk timer resets).
    Idle,
    /// Walking, showing this step of the walk cycle.
    Walk(usize),
}

/// The effects of one frame of controls.
#[derive(Clone, Copy, PartialEq, Eq, Debug, Structural)]
pub struct ControlStep {
    /// Facing written from the arrow keys.
    pub steered: Option<Facing>,
    /// Facing written back by the face lock.
    pub relocked: Option<Facing>,
    /// The attack phase entered this frame (the caller starts its timer).
    pub entered: Option<AttackPhase>,
    /// A strike began: start the face-lock timer.
    pub lock_started: bool,
    pub frame: KnightFrame,
    /// Horizontal and vertical walking direction (-1, 0 or 1).
    pub dir_x: i8,
    pub dir_y: i8,
}

/// The discrete state of the knight's controls.
#[derive(Clone, Copy, PartialEq, Eq, Debug, Structural)]
pub struct KnightControlSystem {
    pub phase: AttackPhase,
    pub current_attack: Option<AttackKind>,
    pub buffered: Option<AttackKind>,
    pub prev_facing: Option<Facing>,
    pub combo_reset: bool,
    pub locked_facing: Option<Facing>,
    pub walk_step: usize,
}

/// -1, 0 or 1 from a pair of opposite keys (both or neither held give 0).
pub open spec fn axis_of(neg: bool, pos: bool) -> i8 {
    if neg && !pos {
        -1i8
    } else if pos && !neg {
        1i8
    } else {
        0i8
    }
}

/// -1, 0 or 1 from a pair of opposite keys.
pub fn axis(neg: bool, pos: bool) -> (a: i8)
    ensures
        a == axis_of(neg, pos),
{
    if neg && !pos {
        -1
    } else if pos && !neg {
        1
    } else {
        0
    }
}

/// The facing the arrow keys write: held left or right turns the knight
/// (unless Shift strafes), provided the knight has a facing at all.
pub open spec fn steered_facing(input: ControlInput) -> Option<Facing> {
    let d = axis_of(input.left, input.right);
    if input.facing is Some && d != 0 && !input.shift {
        Some(if d < 0 { Facing::Left } else { Facing::Right })
    } else {
        None
    }
}

/// The facing after steering.
pub open spec fn facing_after(input: ControlInput) -> Option<Facing> {
    match steered_facing(input) {
        Some(f) => Some(f),
        None => input.facing,
    }
}

/// Walking against the facing with Shift held: the walk cycle runs backward
/// at reduced speed.
pub open spec fn backward_of(shift: bool, facing: Option<Facing>, dir_x: i8) -> bool {
    shift && match facing {
        Some(Facing::Left) => dir_x == 1,
        Some(Facing::Right) => dir_x == -1,
        None => false,
    }
}

/// Whether the knight walks backward (the caller needs it to time the walk
/// cycle).
pub fn walks_backward(shift: bool, facing: Option<Facing>, dir_x: i8) -> (b: bool)
    ensures
        b == backward_of(shift, facing, dir_x),
{
    shift && match facing {
        Some(Facing::Left) => dir_x == 1,
        Some(Facing::Right) => dir_x == -1,
        None => false,
    }
}

/// The combo: after a thrust comes a swipe, otherwise a thrust.
pub open spec fn combo_follow_up(last: Option<AttackKind>) -> AttackKind {
    if last == Some(AttackKind::Thrust) {
        AttackKind::Swipe
    } else {
        AttackKind::Thrust
    }
}

/// The next step of the walk cycle of `n` frames, forward or backward.
pub open spec fn walk_next(step: usize, n: usize, backward: bool) -> int {
    if backward {
        (step + n - 1) % (n as int)
    } else {
        (step + 1) % (n as int)
    }
}

impl KnightControlSystem {
    /// Controls at rest: no attack running or queued.
    pub fn new() -> (s: KnightControlSystem)
        ensures
            s.phase == AttackPhase::Idle,
            s.current_attack is None,
            s.buffered is None,
            s.prev_facing is None,
            !s.combo_reset,
            s.locked_facing is None,
            s.walk_step == 0,
    {
        KnightControlSystem {
            phase: AttackPhase::Idle,
            current_attack: None,
            buffered: None,
            prev_facing: None,
            combo_reset: false,
            locked_facing: None,
            walk_step: 0,
        }
    }

    /// The attack that comes last in the schedule: the queued one, else the
    /// running one.
    pub fn last_scheduled(&self) -> (k: Option<AttackKind>)
        ensures
            k == if self.buffered is Some {
                self.buffered
            } else {
                self.current_attack
            },
    {
        match self.buffered {
            Some(k) => Some(k),
            None => self.current_attack,
        }
    }

    /// Starts the queued attack, if any, in its windup.
    pub fn start_next_attack(&mut self)
        ensures
            match old(self).buffered {
                Some(k) => *final(self) == KnightControlSystem {
                    current_attack: Some(k),
                    phase: AttackPhase::Windup,
                    buffered: None,
                    ..*old(self)
                },
                None => *final(self) == *old(self),
            },
    {
        if let Some(kind) = self.buffered {
            self.buffered = None;
            self.current_attack = Some(kind);
            self.phase = AttackPhase::Windup;
        }
    }

    pub open spec fn wf(self, walk_len: usize) -> bool {
        self.walk_step < walk_len
    }

    /// The controls' transition table for one frame: turning drops the
    /// queued attack and restarts the combo; the attack key queues the
    /// combo's next attack; an expired phase advances (windup, strike,
    /// recovery, idle), a strike locking the facing; an idle knight starts the
    /// queued attack; the face lock writes back the locked facing; and the
    /// frame is chosen.
    pub open spec fn next(self, input: ControlInput, walk_len: usize) -> (
        KnightControlSystem,
        ControlStep,
    ) {
        let cur = facing_after(input);
        let dir_x = axis_of(input.left, input.right);
        let dir_y = axis_of(input.up, input.down);
        let turned = self.prev_facing is Some && cur is Some && self.prev_facing != cur;
        let buffered1 = if turned {
            None
        } else {
            self.buffered
        };
        let reset1 = turned || self.combo_reset;
        let queue = input.attack_pressed && buffered1 is None;
        let buffered2 = if queue {
            Some(
                combo_follow_up(
                    if reset1 {
                        None
                    } else {
                        self.current_attack
                    },
                ),
            )
        } else {
            buffered1
        };
        let reset2 = if queue {
            false
        } else {
            reset1
        };
        let advance = self.phase != AttackPhase::Idle && input.phase_time_up;
        let phase1 = if !advance {
            self.phase
        } else {
            match self.phase {
                AttackPhase::Windup => AttackPhase::Strike,
                AttackPhase::Strike => AttackPhase::Recovery,
                _ => AttackPhase::Idle,
            }
        };
        let current1 = if advance && self.phase == AttackPhase::Recovery {
            None
        } else {
            self.current_attack
        };
        let lock_started = advance && self.phase == AttackPhase::Windup;
        let locked1 = if lock_started {
            cur
        } else {
            self.locked_facing
        };
        let starts = phase1 == AttackPhase::Idle && buffered2 is Some;
        let phase2 = if starts {
            AttackPhase::Windup
        } else {
            phase1
        };
        let current2 = if starts {
            buffered2
        } else {
            current1
        };
        let lock_active = lock_started || input.lock_running;
        let walking = phase2 != AttackPhase::Strike && phase2 != AttackPhase::Recovery
            && !input.dashing && (dir_x != 0 || dir_y != 0);
        let walk_step = if walking && input.walk_frame_due {
            walk_next(self.walk_step, walk_len, backward_of(input.shift, cur, dir_x)) as usize
        } else {
            self.walk_step
        };
        let frame = if phase2 == AttackPhase::Strike {
            match current2 {
                Some(k) => KnightFrame::Attack(k),
                None => KnightFrame::Idle,
            }
        } else if walking {
            KnightFrame::Walk(walk_step)
        } else {
            KnightFrame::Idle
        };
        (
            KnightControlSystem {
                phase: phase2,
                current_attack: current2,
                buffered: if starts {
                    None
                } else {
                    buffered2
                },
                prev_facing: cur,
                combo_reset: reset2,
                locked_facing: if lock_active {
                    locked1
                } else {
                    cur
                },
                walk_step,
            },
            ControlStep {
                steered: steered_facing(input),
                relocked: if lock_active && locked1 is Some && cur != locked1 {
                    locked1
                } else {
                    None
                },
                entered: if phase2 != self.phase {
                    Some(phase2)
                } else {
                    None
                },
                lock_started,
                frame,
                dir_x,
                dir_y,
            },
        )
    }

    /// One frame of controls; `walk_len` is the length of the walk cycle.
    pub fn update(&mut self, input: ControlInput, walk_len: usize) -> (out: ControlStep)
        requires
            old(self).wf(walk_len),
            walk_len <= usize::MAX / 2,
        ensures
            final(self).wf(walk_len),
            (*final(self), out) == old(self).next(input, walk_len),
    {
        let start_phase = self.phase;
        let dir = axis(input.left, input.right);
        let dir_y = axis(input.up, input.down);
        let (steered, current_facing) = steer(input);
        self.note_facing(current_facing);
        self.queue_attack(input.attack_pressed);
        let lock_started = self.advance_phase(input.phase_time_up, current_facing);
        if self.phase == AttackPhase::Idle {
            self.start_next_attack();
        }
        let relocked = self.face_lock(lock_started || input.lock_running, current_facing);
        let frame = self.pick_frame(input, current_facing, dir, dir_y, walk_len);
        let entered = if self.phase != start_phase {
            Some(self.phase)
        } else {
            None
        };
        ControlStep { steered, relocked, entered, lock_started, frame, dir_x: dir, dir_y }
    }

    /// A turn (the facing differs from last frame's) drops the queued attack
    /// and restarts the combo.
    fn note_facing(&mut self, cur: Option<Facing>)
        ensures
            ({
                let turned = old(self).prev_facing is Some && cur is Some && old(self).prev_facing
                    != cur;
                &&& final(self).buffered == if turned {
                    None
                } else {
                    old(self).buffered
                }
                &&& final(self).combo_reset == (turned || old(self).combo_reset)
                &&& final(self).prev_facing == cur
                &&& final(self).phase == old(self).phase
                &&& final(self).current_attack == old(self).current_attack
                &&& final(self).locked_facing == old(self).locked_facing
                &&& final(self).walk_step == old(self).walk_step
            }),
    {
        if let (Some(prev), Some(c)) = (self.prev_facing, cur) {
            if prev != c {
                self.buffered = None;
                self.combo_reset = true;
            }
        }
        self.prev_facing = cur;
    }

    /// The attack key queues the combo's next attack, if none is queued.
    fn queue_attack(&mut self, pressed: bool)
        ensures
            ({
                let queue = pressed && old(self).buffered is None;
                &&& final(self).buffered == if queue {
                    Some(
                        combo_follow_up(
                            if old(self).combo_reset {
                                None
                            } else {
                                old(self).current_attack
                            },
                        ),
                    )
                } else {
                    old(self).buffered
                }
                &&& final(self).combo_reset == if queue {
                    false
                } else {
                    old(self).combo_reset
                }
                &&& final(self).prev_facing == old(self).prev_facing
                &&& final(self).phase == old(self).phase
                &&& final(self).current_attack == old(self).current_attack
                &&& final(self).locked_facing == old(self).locked_facing
                &&& final(self).walk_step == old(self).walk_step
            }),
    {
        if pressed && self.buffered.is_none() {
            let last = if self.combo_reset {
                self.combo_reset = false;
                None
            } else {
                self.last_scheduled()
            };
            let kind = match last {
                Some(AttackKind::Thrust) => AttackKind::Swipe,
                _ => AttackKind::Thrust,
            };
            self.buffered = Some(kind);
        }
    }

    /// Runs out the attack phase whose timer expired; a strike locks the
    /// current facing. Returns whether a strike began.
    fn advance_phase(&mut self, time_up: bool, cur: Option<Facing>) -> (lock_started: bool)
        ensures
            ({
                let advance = old(self).phase != AttackPhase::Idle && time_up;
                &&& lock_started == (advance && old(self).phase == AttackPhase::Windup)
                &&& final(self).phase == if !advance {
                    old(self).phase
                } else {
                    match old(self).phase {
                        AttackPhase::Windup => AttackPhase::Strike,
                        AttackPhase::Strike => AttackPhase::Recovery,
                        _ => AttackPhase::Idle,
                    }
                }
                &&& final(self).current_attack == if advance && old(self).phase
                    == AttackPhase::Recovery {
                    None
                } else {
                    old(self).current_attack
                }
                &&& final(self).locked_facing == if lock_started {
                    cur
                } else {
                    old(self).locked_facing
                }
                &&& final(self).buffered == old(self).buffered
                &&& final(self).combo_reset == old(self).combo_reset
                &&& final(self).prev_facing == old(self).prev_facing
                &&& final(self).walk_step == old(self).walk_step
            }),
    {
        let mut lock_started = false;
        if self.phase != AttackPhase::Idle && time_up {
            match self.phase {
                AttackPhase::Windup => {
                    self.phase = AttackPhase::Strike;
                    self.locked_facing = cur;
                    lock_started = true;
                },
                AttackPhase::Strike => {
                    self.phase = AttackPhase::Recovery;
                },
                AttackPhase::Recovery => {
                    self.phase = AttackPhase::Idle;
                    self.current_attack = None;
                },
                AttackPhase::Idle => {},
            }
        }
        lock_started
    }

    /// While the face lock runs, the locked facing is written back whenever
    /// the knight turned away from it; otherwise the lock follows the knight.
    fn face_lock(&mut self, active: bool, cur: Option<Facing>) -> (relocked: Option<Facing>)
        ensures
            final(self).locked_facing == if active {
                old(self).locked_facing
            } else {
                cur
            },
            relocked == if active && old(self).locked_facing is Some && cur
                != old(self).locked_facing {
                old(self).locked_facing
            } else {
                None::<Facing>
            },
            final(self).phase == old(self).phase,
            final(self).current_attack == old(self).current_attack,
            final(self).buffered == old(self).buffered,
            final(self).combo_reset == old(self).combo_reset,
            final(self).prev_facing == old(self).prev_facing,
            final(self).walk_step == old(self).walk_step,
    {
        let mut relocked: Option<Facing> = None;
        if active {
            if let Some(locked) = self.locked_facing {
                if cur != Some(locked) {
                    relocked = Some(locked);
                }
            }
        } else {
            self.locked_facing = cur;
        }
        relocked
    }

    /// The frame to show, stepping the walk cycle while walking.
    fn pick_frame(
        &mut self,
        input: ControlInput,
        cur: Option<Facing>,
        dir: i8,
        dir_y: i8,
        walk_len: usize,
    ) -> (frame: KnightFrame)
        requires
            old(self).walk_step < walk_len,
            walk_len <= usize::MAX / 2,
        ensures
            final(self).walk_step < walk_len,
            final(self).phase == old(self).phase,
            final(self).current_attack == old(self).current_attack,
            final(self).buffered == old(self).buffered,
            final(self).combo_reset == old(self).combo_reset,
            final(self).prev_facing == old(self).prev_facing,
            final(self).locked_facing == old(self).locked_facing,
            match old(self).phase {
                AttackPhase::Strike => frame == match old(self).current_attack {
                    Some(k) => KnightFrame::Attack(k),
                    None => KnightFrame::Idle,
                } && final(self).walk_step == old(self).walk_step,
                AttackPhase::Recovery => frame == KnightFrame::Idle && final(self).walk_step
                    == old(self).walk_step,
                _ => if input.dashing || (dir == 0 && dir_y == 0) {
                    frame == KnightFrame::Idle && final(self).walk_step == old(self).walk_step
                } else {
                    let step = if input.walk_frame_due {
                        walk_next(old(self).walk_step, walk_len, backward_of(input.shift, cur, dir))
                    } else {
                        old(self).walk_step as int
                    };
                    final(self).walk_step == step && frame == KnightFrame::Walk(
                        final(self).walk_step,
                    )
                },
            },
    {
        match self.phase {
            AttackPhase::Strike => match self.current_attack {
                Some(k) => KnightFrame::Attack(k),
                None => KnightFrame::Idle,
            },
            AttackPhase::Recovery => KnightFrame::Idle,
            _ => {
                if input.dashing {
                    KnightFrame::Idle
                } else if dir != 0 || dir_y != 0 {
                    let backward = walks_backward(input.shift, cur, dir);
                    if input.walk_frame_due {
                        self.walk_step = if backward {
                            (self.walk_step + walk_len - 1) % walk_len
                        } else {
                            (self.walk_step + 1) % walk_len
                        };
                    }
                    KnightFrame::Walk(self.walk_step)
                } else {
                    KnightFrame::Idle
                }
            },
        }
    }
}

/// The facing the arrow keys write, and the facing after steering.
fn steer(input: ControlInput) -> (r: (Option<Facing>, Option<Facing>))
    ensures
        r.0 == steered_facing(input),
        r.1 == facing_after(input),
{
    let dir = axis(input.left, input.right);
    if dir != 0 && !input.shift && input.facing.is_some() {
        let f = if dir < 0 {
            Facing::Left
        } else {
            Facing::Right
        };
        (Some(f), Some(f))
    } else {
        (None, input.facing)
    }
}


/// The combo alternates: a thrust is followed by a swipe, a swipe (or
/// nothing) by a thrust.
pub proof fn lemma_combo_alternates()
    ensures
        combo_follow_up(Some(AttackKind::Thrust)) == AttackKind::Swipe,
        combo_follow_up(Some(AttackKind::Swipe)) == AttackKind::Thrust,
        combo_follow_up(None) == AttackKind::Thrust,
{
}

/// Turning around restarts the combo: an attack queued on the frame the
/// knight turns is a thrust, whatever came before.
pub proof fn lemma_turn_restarts_combo(c: KnightControlSystem, input: ControlInput, walk_len: usize)
    requires
        c.prev_facing is Some,
        facing_after(input) is Some,
        c.prev_facing != facing_after(input),
        input.attack_pressed,
    ensures
        ({
            let (n, _) = c.next(input, walk_len);
            n.buffered == Some(AttackKind::Thrust) || n.current_attack == Some(AttackKind::Thrust)
        }),
        !c.next(input, walk_len).0.combo_reset,
{
}

/// Every strike is wound up: the knight enters the strike phase only from
/// its windup, and a strike always starts the face lock.
pub proof fn lemma_strike_follows_windup(c: KnightControlSystem, input: ControlInput, walk_len: usize)
    requires
        c.next(input, walk_len).1.entered == Some(AttackPhase::Strike),
    ensures
        c.phase == AttackPhase::Windup,
        c.next(input, walk_len).1.lock_started,
{
}

/// The face lock only ever writes back the facing it locked.
pub proof fn lemma_lock_writes_locked(c: KnightControlSystem, input: ControlInput, walk_len: usize)
    requires
        c.next(input, walk_len).1.relocked is Some,
    ensures
        c.next(input, walk_len).1.relocked == c.next(input, walk_len).0.locked_facing,
        c.next(input, walk_len).1.relocked != facing_after(input),
{
}

} // verus!
