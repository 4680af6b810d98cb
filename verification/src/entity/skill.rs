//! Skill vocabulary: the selector directions and the skill icons.

use vstd::prelude::*;

verus! {

/// A direction of the radial skill selector.
#[derive(Clone, Copy, PartialEq, Eq, Debug, Structural)]
pub enum SkillDirection {
    Up,
    Down,
    Left,
    Right,
}

/// The skill an icon stands for.
#[derive(Clone, Copy, PartialEq, Eq, Debug, Structural)]
pub enum SkillIconKind {
    Sword,
    Shield,
    ShieldToss,
    DivineStance,
    Consecration,
    Potion,
    Fireball,
    Crossed,
}

} // verus!
