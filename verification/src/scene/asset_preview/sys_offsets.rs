//! Placing the knight's shield and sword on the body frame by frame.

use vstd::prelude::*;
use crate::entity::knight::Facing;

verus! {

/// Which parts a body frame shows, and the sword frame it pairs with.
#[derive(Clone, Copy, PartialEq, Eq, Debug, Structural)]
pub struct FramePartFlags {
    pub shield_visible: bool,
    pub sword_visible: bool,
    pub sword_frame: usize,
}

/// How the shield and sword are drawn this frame.
#[derive(Clone, Copy, PartialEq, Eq, Debug, Structural)]
pub struct PartPose {
    /// Facing left mirrors the body and its parts.
    pub mirror: bool,
    pub shield_visible: bool,
    pub sword_visible: bool,
    /// The sword's frame, wrapped into its own sheet.
    pub sword_frame: usize,
}

/// Keeps the knight's parts on its body.
pub struct OffsetUpdateSystem {}

impl OffsetUpdateSystem {
    pub fn new() -> (s: OffsetUpdateSystem) {
        OffsetUpdateSystem {  }
    }

    /// The parts' pose for a body frame with these `flags`, the knight
    /// facing `facing`, and a sword sheet of `sword_frame_count` frames.
    pub fn pose(&self, flags: FramePartFlags, facing: Facing, sword_frame_count: usize) -> (p:
        PartPose)
        requires
            sword_frame_count > 0,
        ensures
            p.mirror == (facing == Facing::Left),
            p.shield_visible == flags.shield_visible,
            p.sword_visible == flags.sword_visible,
            p.sword_frame == flags.sword_frame % sword_frame_count,
    {
        PartPose {
            mirror: facing == Facing::Left,
            shield_visible: flags.shield_visible,
            sword_visible: flags.sword_visible,
            sword_frame: flags.sword_frame % sword_frame_count,
        }
    }
}

} // verus!
