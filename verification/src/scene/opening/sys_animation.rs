//! Looping sprite animations of the opening screen.

use vstd::prelude::*;

verus! {

/// Advances the opening screen's looping animations.
pub struct AnimationSys {}

impl AnimationSys {
    pub fn new() -> (s: AnimationSys) {
        AnimationSys {  }
    }

    /// The frame a looping animation of `frame_count` frames shows after
    /// `tick` whole frame periods have elapsed.
    pub fn frame_at(&self, tick: usize, frame_count: usize) -> (frame: usize)
        requires
            frame_count > 0,
        ensures
            frame == tick % frame_count,
            frame < frame_count,
    {
        tick % frame_count
    }
}

} // verus!
