//! Sprite-sheet animation of the platformer's player, plus the frame rules
//! shared with the enemies.

use vstd::prelude::*;
use crate::scene::scene_one::components::Anim;

verus! {

/// The frame a looping animation of `frame_count` frames shows after `tick`
/// whole frame periods.
pub fn loop_frame(tick: usize, frame_count: usize) -> (frame: usize)
    requires
        frame_count > 0,
    ensures
        frame == tick % frame_count,
{
    tick % frame_count
}

/// The frame a play-once animation shows after `tick` whole frame periods,
/// and whether it has finished (then it holds its last frame).
pub fn once_frame(tick: usize, frame_count: usize) -> (r: (usize, bool))
    requires
        frame_count > 0,
    ensures
        r == if tick >= frame_count {
            ((frame_count - 1) as usize, true)
        } else {
            (tick, false)
        },
{
    if tick >= frame_count {
        (frame_count - 1, true)
    } else {
        (tick, false)
    }
}

/// Tracks the player's animation so a new animation restarts from its
/// first frame.
pub struct AnimationSys {
    pub last_anim: Anim,
}

impl AnimationSys {
    pub fn new() -> (s: AnimationSys)
        ensures
            s.last_anim == Anim::Idle,
    {
        AnimationSys { last_anim: Anim::Idle }
    }

    /// Records this frame's animation. Returns whether it changed: then the
    /// frame clock restarts, and a return to Idle first waits out the idle
    /// delay on frame 0.
    pub fn note_anim(&mut self, cur: Anim) -> (changed: bool)
        ensures
            changed == (cur != old(self).last_anim),
            final(self).last_anim == cur,
    {
        let changed = cur != self.last_anim;
        self.last_anim = cur;
        changed
    }
}

} // verus!
