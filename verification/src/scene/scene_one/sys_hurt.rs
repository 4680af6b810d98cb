//! Getting hurt in the platformer: a hit plays the hurt animation, then the
//! player blinks a fixed number of times while invulnerable.

use vstd::prelude::*;
use crate::scene::scene_one::components::{Anim, Blink};

verus! {

/// Whether the player can be hit this frame: not already hurt, not blinking.
pub fn vulnerable(hurt: bool, blink_active: bool) -> (v: bool)
    ensures
        v == (!hurt && !blink_active),
{
    !hurt && !blink_active
}

impl Blink {
    /// A blinking period begins: hidden first, `blink_count` blinks to go.
    pub fn start(&mut self)
        ensures
            *final(self) == (Blink {
                active: true,
                blinks_left: old(self).blink_count,
                visible: false,
                ..*old(self)
            }),
    {
        self.active = true;
        self.blinks_left = self.blink_count;
        self.visible = false;
    }

    /// The sprite after one blink interval: it toggles; each reappearance
    /// uses up a blink, and after the last one blinking stops with the
    /// sprite shown.
    pub open spec fn toggled(self) -> Blink {
        if self.visible {
            Blink { visible: false, ..self }
        } else if self.blinks_left > 1 {
            Blink { visible: true, blinks_left: (self.blinks_left - 1) as u32, ..self }
        } else {
            Blink { visible: true, blinks_left: 0, active: false, ..self }
        }
    }

    /// One blink interval elapsed.
    pub fn toggle(&mut self)
        requires
            old(self).visible || old(self).blinks_left > 0,
        ensures
            *final(self) == old(self).toggled(),
    {
        self.visible = !self.visible;
        if self.visible {
            self.blinks_left = self.blinks_left - 1;
            if self.blinks_left == 0 {
                self.active = false;
                self.visible = true;
            }
        }
    }
}


/// The blink state after `k` blink intervals.
pub open spec fn after_toggles(b: Blink, k: nat) -> Blink
    decreases k,
{
    if k == 0 {
        b
    } else {
        after_toggles(b.toggled(), (k - 1) as nat)
    }
}

/// A hidden sprite with `m` blinks left keeps blinking for `2m - 1` more
/// intervals and then stops, shown.
pub proof fn lemma_blinks_left(b: Blink, k: nat)
    requires
        b.active,
        !b.visible,
        b.blinks_left > 0,
    ensures
        k < 2 * b.blinks_left - 1 ==> after_toggles(b, k).active,
        k == 2 * b.blinks_left - 1 ==> !after_toggles(b, k).active && after_toggles(b, k).visible,
    decreases b.blinks_left, k,
{
    if k > 0 {
        let b1 = b.toggled();
        if b.blinks_left > 1 {
            let b2 = b1.toggled();
            assert(b2.active && !b2.visible && b2.blinks_left == b.blinks_left - 1);
            if k >= 2 {
                assert(after_toggles(b, k) == after_toggles(b2, (k - 2) as nat)) by {
                    assert(after_toggles(b, k) == after_toggles(b1, (k - 1) as nat));
                    assert(after_toggles(b1, (k - 1) as nat) == after_toggles(
                        b2,
                        (k - 2) as nat,
                    ));
                }
                lemma_blinks_left(b2, (k - 2) as nat);
            } else {
                assert(after_toggles(b, 1) == after_toggles(b1, 0));
            }
        } else {
            assert(after_toggles(b, k) == after_toggles(b1, (k - 1) as nat));
        }
    }
}

/// A hit starts a blinking period of exactly `2 * blink_count - 1`
/// intervals, at the end of which the player is shown again.
pub proof fn lemma_blink_period(b: Blink)
    requires
        b.blink_count > 0,
    ensures
        ({
            let started = Blink { active: true, blinks_left: b.blink_count, visible: false, ..b };
            &&& forall|k: nat| k < 2 * b.blink_count - 1 ==> #[trigger] after_toggles(started, k).active
            &&& !after_toggles(started, (2 * b.blink_count - 1) as nat).active
            &&& after_toggles(started, (2 * b.blink_count - 1) as nat).visible
        }),
{
    let started = Blink { active: true, blinks_left: b.blink_count, visible: false, ..b };
    assert forall|k: nat| k < 2 * b.blink_count - 1 implies #[trigger] after_toggles(
        started,
        k,
    ).active by {
        lemma_blinks_left(started, k);
    }
    lemma_blinks_left(started, (2 * b.blink_count - 1) as nat);
}

/// What the caller measured for the player this frame.
#[derive(Clone, Copy, PartialEq, Eq, Debug, Structural)]
pub struct HurtView {
    /// The player's hurtbox overlaps some enemy's hitbox.
    pub touching_enemy: bool,
    /// The hurt animation has played to its end.
    pub hurt_done: bool,
    /// A blink interval elapsed this frame.
    pub interval_over: bool,
}

/// The player's hurt state.
#[derive(Clone, Copy, PartialEq, Eq, Debug, Structural)]
pub struct HurtState {
    /// The hurt animation is playing.
    pub hurt: bool,
    pub anim: Anim,
    pub blink: Blink,
}

/// An active blink always has a blink to go, and a blinking period can be
/// started (it has at least one blink).
pub open spec fn blink_wf(b: Blink) -> bool {
    &&& b.blink_count >= 1
    &&& b.active ==> b.blinks_left >= 1
}

/// One frame of getting hurt: a vulnerable player touching an enemy is hit
/// (hurt, playing the hurt animation); a hurt animation that has ended
/// starts the blinking period; a blinking period that was running steps on
/// each elapsed interval.
pub open spec fn hurt_next(s: HurtState, view: HurtView) -> (HurtState, bool) {
    let hit = !s.hurt && !s.blink.active && view.touching_enemy;
    let (hurt1, anim1) = if hit {
        (true, Anim::Hurt)
    } else {
        (s.hurt, s.anim)
    };
    let ends = s.hurt && view.hurt_done;
    let blink1 = if ends {
        Blink { active: true, blinks_left: s.blink.blink_count, visible: false, ..s.blink }
    } else {
        s.blink
    };
    let blink2 = if s.blink.active && view.interval_over {
        blink1.toggled()
    } else {
        blink1
    };
    (HurtState { hurt: if ends { false } else { hurt1 }, anim: anim1, blink: blink2 }, hit)
}

/// The platformer's hurt rules.
pub struct HurtSys {}

impl HurtSys {
    pub fn new() -> (s: HurtSys) {
        HurtSys {  }
    }

    /// One frame of the hurt rules; returns whether the player was hit.
    pub fn update(&self, state: &mut HurtState, view: HurtView) -> (hit: bool)
        requires
            blink_wf(old(state).blink),
        ensures
            (*final(state), hit) == hurt_next(*old(state), view),
            blink_wf(final(state).blink),
    {
        let hurt0 = state.hurt;
        let blink_active0 = state.blink.active;
        let hit = vulnerable(hurt0, blink_active0) && view.touching_enemy;
        if hit {
            state.hurt = true;
            state.anim = Anim::Hurt;
        }
        if hurt0 && view.hurt_done {
            state.hurt = false;
            state.blink.start();
        }
        if blink_active0 && view.interval_over {
            state.blink.toggle();
        }
        hit
    }
}

/// A player who is hurt or blinking is not hit again, whatever it touches;
/// a vulnerable player touching an enemy is hit and plays the hurt
/// animation; and blinking never runs out of blinks while active.
pub proof fn lemma_no_hit_while_hurt(s: HurtState, view: HurtView)
    requires
        blink_wf(s.blink),
    ensures
        (s.hurt || s.blink.active) ==> !hurt_next(s, view).1,
        (!s.hurt && !s.blink.active && view.touching_enemy) ==> hurt_next(s, view).1
            && hurt_next(s, view).0.hurt && hurt_next(s, view).0.anim == Anim::Hurt,
        blink_wf(hurt_next(s, view).0.blink),
{
}

} // verus!
