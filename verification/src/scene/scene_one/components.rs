//! Components of the platformer scene.

use vstd::prelude::*;

verus! {

/// The player's animation.
#[derive(Clone, Copy, PartialEq, Eq, Debug, Structural)]
pub enum Anim {
    Idle,
    Run,
    Jump,
    Hurt,
}

/// An enemy's animation.
#[derive(Clone, Copy, PartialEq, Eq, Debug, Structural)]
pub enum EnemyAnim {
    Idle,
    Walk,
    Fall,
}

/// The discrete part of the player's post-hit blinking.
#[derive(Clone, Copy, PartialEq, Eq, Debug, Structural)]
pub struct Blink {
    pub active: bool,
    pub blinks_left: u32,
    pub visible: bool,
    pub blink_count: u32,
}

} // verus!
