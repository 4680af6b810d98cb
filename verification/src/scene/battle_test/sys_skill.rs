//! The radial skill selector: holding the skills key opens it on the last
//! used direction, the arrow keys pick a direction, releasing the key casts
//! the skill bound there. Also the rule every skill system applies before it
//! accepts a cast.

use vstd::prelude::*;
use crate::entity::skill::{SkillDirection, SkillIconKind};

verus! {

/// The keys the selector reads this frame.
#[derive(Clone, Copy, PartialEq, Eq, Debug, Structural)]
pub struct SelectorInput {
    /// The knight is held by a running skill (a knight lock is present).
    pub knight_locked: bool,
    /// The skills key went down this frame.
    pub skills_pressed: bool,
    /// The skills key is held.
    pub skills_held: bool,
    /// The skills key went up this frame.
    pub skills_released: bool,
    pub up_pressed: bool,
    pub down_pressed: bool,
    pub left_pressed: bool,
    pub right_pressed: bool,
    /// The direction of the last used skill, if one was used.
    pub last_direction: Option<SkillDirection>,
}

/// What the caller does after one frame of the selector.
#[derive(Clone, Copy, PartialEq, Eq, Debug, Structural)]
pub struct SelectorStep {
    /// The selector opened: block movement, show the knight idle, reset the
    /// pop-in scale.
    pub opened: bool,
    /// The selector closed: release movement, reset the pop-in scale.
    pub closed: bool,
    /// Cast the skill bound to this direction.
    pub fire: Option<SkillDirection>,
}

/// The selector's state.
#[derive(Clone, Copy, PartialEq, Eq, Debug, Structural)]
pub struct SkillSystem {
    pub selector_open: bool,
    pub pending: Option<SkillDirection>,
}

/// The direction highlighted when the selector opens with no skill used yet.
pub open spec fn default_direction() -> SkillDirection {
    SkillDirection::Up
}

/// The direction the arrow keys pick while the selector is held open (the
/// later of Up, Down, Left, Right wins when several go down together).
pub open spec fn picked(input: SelectorInput, pending: Option<SkillDirection>) -> Option<
    SkillDirection,
> {
    if input.right_pressed {
        Some(SkillDirection::Right)
    } else if input.left_pressed {
        Some(SkillDirection::Left)
    } else if input.down_pressed {
        Some(SkillDirection::Down)
    } else if input.up_pressed {
        Some(SkillDirection::Up)
    } else {
        pending
    }
}

impl SkillSystem {
    /// The selector starts closed.
    pub fn new() -> (s: SkillSystem)
        ensures
            !s.selector_open,
            s.pending is None,
    {
        SkillSystem { selector_open: false, pending: None }
    }

    /// The selector's transition table. While a skill holds the knight
    /// nothing happens. Otherwise pressing the skills key opens the selector
    /// on the last used direction (Up if none); while the key is held, the
    /// arrow keys change the pending direction; releasing the key closes the
    /// selector and casts the pending direction, if any.
    pub open spec fn next(self, input: SelectorInput) -> (SkillSystem, SelectorStep) {
        if input.knight_locked {
            (self, SelectorStep { opened: false, closed: false, fire: None })
        } else {
            let open1 = self.selector_open || input.skills_pressed;
            let pending1 = if input.skills_pressed {
                Some(
                    match input.last_direction {
                        Some(d) => d,
                        None => default_direction(),
                    },
                )
            } else {
                self.pending
            };
            let pending2 = if input.skills_held && open1 {
                picked(input, pending1)
            } else {
                pending1
            };
            (
                SkillSystem {
                    selector_open: open1 && !input.skills_released,
                    pending: if input.skills_released {
                        None
                    } else {
                        pending2
                    },
                },
                SelectorStep {
                    opened: input.skills_pressed,
                    closed: input.skills_released,
                    fire: if input.skills_released {
                        pending2
                    } else {
                        None
                    },
                },
            )
        }
    }

    /// One frame of the selector.
    pub fn update(&mut self, input: SelectorInput) -> (out: SelectorStep)
        ensures
            (*final(self), out) == old(self).next(input),
    {
        let mut out = SelectorStep { opened: false, closed: false, fire: None };
        if input.knight_locked {
            return out;
        }
        if input.skills_pressed {
            self.selector_open = true;
            let d = match input.last_direction {
                Some(d) => d,
                None => SkillDirection::Up,
            };
            self.pending = Some(d);
            out.opened = true;
        }
        if input.skills_held && self.selector_open {
            if input.up_pressed {
                self.pending = Some(SkillDirection::Up);
            }
            if input.down_pressed {
                self.pending = Some(SkillDirection::Down);
            }
            if input.left_pressed {
                self.pending = Some(SkillDirection::Left);
            }
            if input.right_pressed {
                self.pending = Some(SkillDirection::Right);
            }
        }
        if input.skills_released {
            self.selector_open = false;
            out.closed = true;
            let p = self.pending;
            self.pending = None;
            out.fire = p;
        }
        out
    }
}

/// The icon of the skill bound to `dir`: the first skill whose direction is
/// `dir`, and its icon (none when that skill has no icon).
pub open spec fn bound_icon(
    skills: Seq<(Option<SkillDirection>, Option<SkillIconKind>)>,
    dir: SkillDirection,
) -> Option<SkillIconKind>
    decreases skills.len(),
{
    if skills.len() == 0 {
        None
    } else if skills[0].0 == Some(dir) {
        skills[0].1
    } else {
        bound_icon(skills.drop_first(), dir)
    }
}

/// Finds the icon of the skill bound to `dir`, given each skill's direction
/// and icon in store order.
pub fn skill_for_direction(
    skills: &Vec<(Option<SkillDirection>, Option<SkillIconKind>)>,
    dir: SkillDirection,
) -> (kind: Option<SkillIconKind>)
    ensures
        kind == bound_icon(skills@, dir),
{
    let mut i: usize = 0;
    assert(skills@.skip(0) =~= skills@);
    while i < skills.len()
        invariant
            i <= skills.len(),
            bound_icon(skills@, dir) == bound_icon(skills@.skip(i as int), dir),
        decreases skills.len() - i,
    {
        assert(skills@.skip(i as int).drop_first() =~= skills@.skip(i + 1));
        if skills[i].0 == Some(dir) {
            return skills[i].1;
        }
        i = i + 1;
    }
    None
}

/// A skill system accepts a cast event only for its own skill, while it is
/// not already busy (active, holding the knight or cooling down), and while
/// the knight is present (`knight_lock` is `Some`) and not held by another
/// skill.
pub fn cast_accepted(
    own: SkillIconKind,
    event: SkillIconKind,
    busy: bool,
    knight_lock: Option<bool>,
) -> (ok: bool)
    ensures
        ok == (event == own && !busy && knight_lock == Some(false)),
{
    if event != own {
        return false;
    }
    if busy {
        return false;
    }
    match knight_lock {
        Some(locked) => !locked,
        None => false,
    }
}


/// A skill is cast only when the skills key is released, and each release
/// casts at most once: right after a cast nothing is pending any more.
pub proof fn lemma_cast_on_release_only(s: SkillSystem, i1: SelectorInput, i2: SelectorInput)
    ensures
        s.next(i1).1.fire is Some ==> i1.skills_released && !i1.knight_locked,
        s.next(i1).1.fire is Some && !i2.skills_pressed ==> s.next(i1).0.next(i2).1.fire is None,
{
}

/// Opening the selector highlights the direction of the last used skill,
/// or Up when no skill has been used yet.
pub proof fn lemma_opens_on_last_used(s: SkillSystem, input: SelectorInput)
    requires
        !input.knight_locked,
        input.skills_pressed,
        !input.skills_held,
        !input.skills_released,
    ensures
        s.next(input).0.selector_open,
        s.next(input).0.pending == Some(
            match input.last_direction {
                Some(d) => d,
                None => SkillDirection::Up,
            },
        ),
{
}

} // verus!
