//! Attack effects (thrust flash, slash arc) trigger on the first frame of
//! the matching attack pose.

use vstd::prelude::*;
use crate::entity::knight::EffectKind;

verus! {

/// Watches the knight's frame for new attack poses.
pub struct AttackEffectSystem {
    pub prev_frame: Option<usize>,
}

impl AttackEffectSystem {
    pub fn new() -> (s: AttackEffectSystem)
        ensures
            s.prev_frame is None,
    {
        AttackEffectSystem { prev_frame: None }
    }

    /// The effect to start this frame: a thrust or slash when the knight's
    /// frame just changed to the thrust or swipe pose.
    pub fn triggered(&mut self, frame: usize, thrust: usize, swipe: usize) -> (kind: Option<
        EffectKind,
    >)
        requires
            thrust != swipe,
        ensures
            final(self).prev_frame == Some(frame),
            kind == if old(self).prev_frame == Some(frame) {
                None::<EffectKind>
            } else if frame == thrust {
                Some(EffectKind::Thrust)
            } else if frame == swipe {
                Some(EffectKind::Slash)
            } else {
                None::<EffectKind>
            },
    {
        if self.prev_frame == Some(frame) {
            return None;
        }
        self.prev_frame = Some(frame);
        if frame == thrust {
            Some(EffectKind::Thrust)
        } else if frame == swipe {
            Some(EffectKind::Slash)
        } else {
            None
        }
    }
}

} // verus!
