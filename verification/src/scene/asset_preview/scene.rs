//! The asset preview: three boxes choose the knight's outfit, shield and
//! sword; Jump switches between editing the boxes and driving the knight.

use vstd::prelude::*;

verus! {

/// Number of option boxes (outfit, shield, sword).
pub const BOX_COUNT: usize = 3;

/// Variants available for each of outfit, shield and sword.
pub const VARIANT_COUNT: usize = 3;

/// What the preview's input drives.
#[derive(Clone, Copy, PartialEq, Eq, Debug, Structural)]
pub enum FocusMode {
    Knight,
    Boxes,
}

/// The preview's selections.
#[derive(Clone, Copy, PartialEq, Eq, Debug, Structural)]
pub struct AssetPreviewScene {
    pub knight_variant: usize,
    pub shield_variant: usize,
    pub sword_variant: usize,
    pub focus: usize,
    pub focus_mode: FocusMode,
}

/// The keys the preview reads this frame.
#[derive(Clone, Copy, PartialEq, Eq, Debug, Structural)]
pub struct PreviewInput {
    pub jump: bool,
    pub up: bool,
    pub down: bool,
    pub left: bool,
    pub right: bool,
}

/// What the caller does after a frame of the preview.
#[derive(Clone, Copy, PartialEq, Eq, Debug, Structural)]
pub struct PreviewStep {
    /// Put the knight back in its idle pose.
    pub set_idle: bool,
    /// Run the knight's dash and controls.
    pub drive_knight: bool,
    /// The outfit, shield or sword changed: reload it and rebuild the knight.
    pub rebuild: bool,
}

/// `(current + delta)` wrapped into `0 .. len`, counting backward from the
/// end for negative values (Euclidean remainder).
pub fn cycle_index(current: usize, delta: i32, len: usize) -> (i: usize)
    requires
        0 < len <= i32::MAX,
        current < len,
        i32::MIN <= current + delta <= i32::MAX,
    ensures
        i == (current + delta) % (len as int),
        i < len,
{
    let v: i64 = current as i64 + delta as i64;
    let m: i64 = len as i64;
    if v >= 0 {
        let r = (v as u64) % (m as u64);
        r as usize
    } else {
        let a = ((-v) as u64) % (m as u64);
        proof {
            let vi = v as int;
            let mi = m as int;
            let ai = a as int;
            assert(ai == (-vi) % mi);
            assert((-vi) == ((-vi) / mi) * mi + ai) by (nonlinear_arith)
                requires
                    mi > 0,
                    ai == (-vi) % mi,
            ;
            if ai == 0 {
                let q = (-vi) / mi;
                assert(vi == (-q) * mi) by (nonlinear_arith)
                    requires
                        (-vi) == q * mi,
                ;
                vstd::arithmetic::div_mod::lemma_mod_multiples_basic(-q, mi);
            } else {
                assert(vi == (-((-vi) / mi) - 1) * mi + (mi - ai)) by (nonlinear_arith)
                    requires
                        (-vi) == ((-vi) / mi) * mi + ai,
                ;
                assert(vi % mi == mi - ai) by (nonlinear_arith)
                    requires
                        mi > 0,
                        0 < ai < mi,
                        vi == (-((-vi) / mi) - 1) * mi + (mi - ai),
                ;
            }
        }
        if a == 0 {
            0
        } else {
            (m as u64 - a) as usize
        }
    }
}

impl AssetPreviewScene {
    /// The preview opens on the first variant of everything, editing the
    /// first box.
    pub fn new() -> (s: AssetPreviewScene)
        ensures
            s.knight_variant == 0 && s.shield_variant == 0 && s.sword_variant == 0,
            s.focus == 0,
            s.focus_mode == FocusMode::Boxes,
    {
        AssetPreviewScene {
            knight_variant: 0,
            shield_variant: 0,
            sword_variant: 0,
            focus: 0,
            focus_mode: FocusMode::Boxes,
        }
    }

    pub open spec fn wf(self) -> bool {
        &&& self.knight_variant < VARIANT_COUNT
        &&& self.shield_variant < VARIANT_COUNT
        &&& self.sword_variant < VARIANT_COUNT
        &&& self.focus < BOX_COUNT
    }

    /// The next outfit (`delta` 1) or the previous one (`delta` -1).
    pub fn cycle_outfit(&mut self, delta: i32)
        requires
            old(self).wf(),
            -1 <= delta <= 1,
        ensures
            final(self).wf(),
            *final(self) == (AssetPreviewScene {
                knight_variant: ((old(self).knight_variant + delta) % (VARIANT_COUNT as int)) as usize,
                ..*old(self)
            }),
    {
        self.knight_variant = cycle_index(self.knight_variant, delta, VARIANT_COUNT);
    }

    /// The next or previous shield.
    pub fn cycle_shield(&mut self, delta: i32)
        requires
            old(self).wf(),
            -1 <= delta <= 1,
        ensures
            final(self).wf(),
            *final(self) == (AssetPreviewScene {
                shield_variant: ((old(self).shield_variant + delta) % (VARIANT_COUNT as int)) as usize,
                ..*old(self)
            }),
    {
        self.shield_variant = cycle_index(self.shield_variant, delta, VARIANT_COUNT);
    }

    /// The next or previous sword.
    pub fn cycle_sword(&mut self, delta: i32)
        requires
            old(self).wf(),
            -1 <= delta <= 1,
        ensures
            final(self).wf(),
            *final(self) == (AssetPreviewScene {
                sword_variant: ((old(self).sword_variant + delta) % (VARIANT_COUNT as int)) as usize,
                ..*old(self)
            }),
    {
        self.sword_variant = cycle_index(self.sword_variant, delta, VARIANT_COUNT);
    }

    /// One frame of the preview's input.
    pub fn update(&mut self, input: PreviewInput) -> (out: PreviewStep)
        requires
            old(self).wf(),
        ensures
            final(self).wf(),
            ({
                let mode = if input.jump {
                    match old(self).focus_mode {
                        FocusMode::Boxes => FocusMode::Knight,
                        FocusMode::Knight => FocusMode::Boxes,
                    }
                } else {
                    old(self).focus_mode
                };
                let focus0 = if input.jump && old(self).focus_mode == FocusMode::Knight {
                    0
                } else {
                    old(self).focus as int
                };
                let focus1 = if input.up {
                    (focus0 + BOX_COUNT - 1) % (BOX_COUNT as int)
                } else {
                    focus0
                };
                let focus2 = if input.down {
                    (focus1 + 1) % (BOX_COUNT as int)
                } else {
                    focus1
                };
                let step = |v: usize|
                    {
                        let v1 = if input.left {
                            (v - 1) % (VARIANT_COUNT as int)
                        } else {
                            v as int
                        };
                        if input.right {
                            (v1 + 1) % (VARIANT_COUNT as int)
                        } else {
                            v1
                        }
                    };
                &&& final(self).focus_mode == mode
                &&& out.set_idle == (input.jump && old(self).focus_mode == FocusMode::Knight)
                &&& out.drive_knight == (mode == FocusMode::Knight)
                &&& if mode == FocusMode::Knight {
                    &&& final(self).focus == focus0
                    &&& final(self).knight_variant == old(self).knight_variant
                    &&& final(self).shield_variant == old(self).shield_variant
                    &&& final(self).sword_variant == old(self).sword_variant
                    &&& !out.rebuild
                } else {
                    &&& final(self).focus == focus2
                    &&& out.rebuild == (input.left || input.right)
                    &&& final(self).knight_variant == if focus2 == 0 {
                        step(old(self).knight_variant)
                    } else {
                        old(self).knight_variant as int
                    }
                    &&& final(self).shield_variant == if focus2 == 1 {
                        step(old(self).shield_variant)
                    } else {
                        old(self).shield_variant as int
                    }
                    &&& final(self).sword_variant == if focus2 == 2 {
                        step(old(self).sword_variant)
                    } else {
                        old(self).sword_variant as int
                    }
                }
            }),
    {
        let mut out = PreviewStep { set_idle: false, drive_knight: false, rebuild: false };
        if input.jump {
            match self.focus_mode {
                FocusMode::Boxes => {
                    self.focus_mode = FocusMode::Knight;
                },
                FocusMode::Knight => {
                    self.focus_mode = FocusMode::Boxes;
                    self.focus = 0;
                    out.set_idle = true;
                },
            }
        }
        if self.focus_mode == FocusMode::Knight {
            out.drive_knight = true;
        } else {
            if input.up {
                self.focus = (self.focus + BOX_COUNT - 1) % BOX_COUNT;
            }
            if input.down {
                self.focus = (self.focus + 1) % BOX_COUNT;
            }
            if self.focus == 0 {
                if input.left {
                    self.cycle_outfit(-1);
                    out.rebuild = true;
                }
                if input.right {
                    self.cycle_outfit(1);
                    out.rebuild = true;
                }
            } else if self.focus == 1 {
                if input.left {
                    self.cycle_shield(-1);
                    out.rebuild = true;
                }
                if input.right {
                    self.cycle_shield(1);
                    out.rebuild = true;
                }
            } else if self.focus == 2 {
                if input.left {
                    self.cycle_sword(-1);
                    out.rebuild = true;
                }
                if input.right {
                    self.cycle_sword(1);
                    out.rebuild = true;
                }
            }
        }
        out
    }
}


/// Cycling forward then backward (or backward then forward) returns to the
/// same variant; cycling stays within the variants.
pub proof fn lemma_cycle_inverse(current: int, len: int)
    requires
        0 < len,
        0 <= current < len,
    ensures
        (((current + 1) % len) - 1) % len == current,
        (((current - 1) % len) + 1) % len == current,
        0 <= (current + 1) % len < len,
        0 <= (current - 1) % len < len,
{
    assert((((current + 1) % len) - 1) % len == current) by (nonlinear_arith)
        requires
            0 < len,
            0 <= current < len,
    ;
    assert((((current - 1) % len) + 1) % len == current) by (nonlinear_arith)
        requires
            0 < len,
            0 <= current < len,
    ;
}

} // verus!
