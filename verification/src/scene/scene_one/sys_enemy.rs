//! The platformer enemies' animation choice.

use vstd::prelude::*;
use crate::scene::scene_one::components::EnemyAnim;

verus! {

/// An enemy falls when airborne, walks while patrolling, else idles.
pub fn enemy_anim(grounded: bool, walking: bool) -> (a: EnemyAnim)
    ensures
        a == if !grounded {
            EnemyAnim::Fall
        } else if walking {
            EnemyAnim::Walk
        } else {
            EnemyAnim::Idle
        },
{
    if !grounded {
        EnemyAnim::Fall
    } else if walking {
        EnemyAnim::Walk
    } else {
        EnemyAnim::Idle
    }
}

} // verus!
