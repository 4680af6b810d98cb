//! The knight's orientation and attack vocabulary.

use vstd::prelude::*;

verus! {

/// Which way the knight faces.
#[derive(Clone, Copy, PartialEq, Eq, Debug, Structural)]
pub enum Facing {
    Left,
    Right,
}

/// The two melee attacks of the knight's combo.
#[derive(Clone, Copy, PartialEq, Eq, Debug, Structural)]
pub enum AttackKind {
    Thrust,
    Swipe,
}

/// The phases of one melee attack.
#[derive(Clone, Copy, PartialEq, Eq, Debug, Structural)]
pub enum AttackPhase {
    Idle,
    Windup,
    Strike,
    Recovery,
}

/// The visual effect that accompanies an attack frame.
#[derive(Clone, Copy, PartialEq, Eq, Debug, Structural)]
pub enum EffectKind {
    Thrust,
    Slash,
}

} // verus!
