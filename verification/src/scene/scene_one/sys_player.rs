//! The platformer player's animation choice.

use vstd::prelude::*;
use crate::scene::scene_one::components::Anim;

verus! {

/// The player's animation: hurt overrides everything, then airborne, then
/// running when a direction is held, else idle.
pub fn player_anim(hurt: bool, grounded: bool, moving: bool) -> (a: Anim)
    ensures
        a == if hurt {
            Anim::Hurt
        } else if !grounded {
            Anim::Jump
        } else if moving {
            Anim::Run
        } else {
            Anim::Idle
        },
{
    if hurt {
        Anim::Hurt
    } else if !grounded {
        Anim::Jump
    } else if moving {
        Anim::Run
    } else {
        Anim::Idle
    }
}

} // verus!
