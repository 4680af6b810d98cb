//! Keeping the knight's facing during a strike: the first frame of a thrust
//! or swipe locks the facing for a short while.

use vstd::prelude::*;
use crate::entity::knight::Facing;

verus! {

/// Detects new attack frames and holds the facing locked at the strike.
pub struct KnightFacingLockSystem {
    pub locked_facing: Option<Facing>,
    pub prev_frame: Option<usize>,
}

/// The effects of one frame of the facing lock.
#[derive(Clone, Copy, PartialEq, Eq, Debug, Structural)]
pub struct LockStep {
    /// A strike began: restart the lock timer.
    pub lock_started: bool,
    /// Facing to write back (the knight turned during the lock).
    pub relock: Option<Facing>,
}

/// Whether `frame` is new since `prev` and is one of the two attack frames.
pub open spec fn attack_began(prev: Option<usize>, frame: usize, thrust: usize, swipe: usize) -> bool {
    prev != Some(frame) && (frame == thrust || frame == swipe)
}

impl KnightFacingLockSystem {
    pub fn new() -> (s: KnightFacingLockSystem)
        ensures
            s.locked_facing is None,
            s.prev_frame is None,
    {
        KnightFacingLockSystem { locked_facing: None, prev_frame: None }
    }

    /// One frame. `frame` is the knight's animation frame (if it has one),
    /// `thrust` and `swipe` the two attack frames, `current` its facing and
    /// `lock_running` whether the lock timer was still running.
    pub fn update(
        &mut self,
        frame: Option<usize>,
        thrust: usize,
        swipe: usize,
        current: Facing,
        lock_running: bool,
    ) -> (out: LockStep)
        ensures
            ({
                let started = match frame {
                    Some(f) => attack_began(old(self).prev_frame, f, thrust, swipe),
                    None => false,
                };
                let locked = if started {
                    Some(current)
                } else {
                    old(self).locked_facing
                };
                let active = started || lock_running;
                &&& final(self).prev_frame == match frame {
                    Some(f) => Some(f),
                    None => old(self).prev_frame,
                }
                &&& out.lock_started == started
                &&& final(self).locked_facing == if active {
                    locked
                } else {
                    Some(current)
                }
                &&& out.relock == if active && locked is Some && locked != Some(current) {
                    locked
                } else {
                    None::<Facing>
                }
            }),
    {
        let mut started = false;
        if let Some(f) = frame {
            if self.prev_frame != Some(f) {
                self.prev_frame = Some(f);
                started = f == thrust || f == swipe;
            }
        }
        if started {
            self.locked_facing = Some(current);
        }
        let mut relock: Option<Facing> = None;
        if started || lock_running {
            if let Some(locked) = self.locked_facing {
                if current != locked {
                    relock = Some(locked);
                }
            }
        } else {
            self.locked_facing = Some(current);
        }
        LockStep { lock_started: started, relock }
    }
}

} // verus!
