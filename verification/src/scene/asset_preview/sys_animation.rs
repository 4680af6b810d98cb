//! The preview's shared animation clock: every running animation advances
//! one frame per period.

use vstd::prelude::*;

verus! {

/// Steps running animations once per frame period.
pub struct AnimationUpdateSystem {}

impl AnimationUpdateSystem {
    pub fn new() -> (s: AnimationUpdateSystem) {
        AnimationUpdateSystem {  }
    }

    /// The frame an animation shows after a frame period: the next one,
    /// wrapping around, if it is running; the same one otherwise.
    pub fn advance(&self, current_frame: usize, frame_count: usize, running: bool) -> (f: usize)
        requires
            frame_count > 0,
            current_frame < usize::MAX,
        ensures
            f == if running {
                (current_frame + 1) % (frame_count as int)
            } else {
                current_frame as int
            },
    {
        if !running {
            current_frame
        } else {
            (current_frame + 1) % frame_count
        }
    }
}

} // verus!
