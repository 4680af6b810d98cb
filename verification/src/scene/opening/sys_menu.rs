//! The opening screen's menu: an attract loop waiting for Enter, a
//! transition flourish, the menu itself and the confirmation of a choice.

use vstd::prelude::*;
use crate::scene::factory::{ChangeSceneEvent, SceneId};

verus! {

/// The stage the opening screen is in.
#[derive(Clone, Copy, PartialEq, Eq, Debug, Structural)]
pub enum Phase {
    Attract,
    Transition,
    Menu,
    Selected,
}

/// The menu's discrete state (the caller keeps the phase clock).
#[derive(Clone, Copy, PartialEq, Eq, Debug, Structural)]
pub struct MenuState {
    pub phase: Phase,
    pub focus: usize,
    pub item_count: usize,
}

/// What happens to the phase clock after a frame.
#[derive(Clone, Copy, PartialEq, Eq, Debug, Structural)]
pub enum ClockAction {
    /// Keep counting.
    Keep,
    /// Start the new phase at zero.
    Restart,
    /// Go back to the menu with its items already slid in (clock at one
    /// second).
    SetOne,
}

/// The keys the menu reads this frame.
#[derive(Clone, Copy, PartialEq, Eq, Debug, Structural)]
pub struct MenuInput {
    pub enter: bool,
    pub up: bool,
    pub down: bool,
    /// The phase clock reached the current phase's duration (the transition
    /// flourish, or the confirmation) this frame.
    pub time_up: bool,
}

/// The effects of a menu frame.
#[derive(Clone, Copy, PartialEq, Eq, Debug, Structural)]
pub struct MenuOutcome {
    pub clock: ClockAction,
    pub event: Option<ChangeSceneEvent>,
}

impl MenuState {
    /// The opening screen starts in the attract loop, focused on the first
    /// item.
    pub fn new(item_count: usize) -> (s: MenuState)
        ensures
            s.phase == Phase::Attract,
            s.focus == 0,
            s.item_count == item_count,
    {
        MenuState { phase: Phase::Attract, focus: 0, item_count }
    }

    /// The focus points at an item (or at the first slot of an empty menu).
    pub open spec fn wf(self) -> bool {
        self.focus == 0 || self.focus < self.item_count
    }
}

/// The opening screen's transition table. Enter leaves the attract loop;
/// the transition ends when its clock runs out; in the menu Up and Down move
/// the focus (when there is more than one item, without wrapping) and Enter
/// confirms; once the confirmation has played, the first item starts the
/// game and any other returns to the menu.
pub open spec fn menu_next(s: MenuState, input: MenuInput) -> (MenuState, MenuOutcome) {
    let keep = MenuOutcome { clock: ClockAction::Keep, event: None };
    let restart = MenuOutcome { clock: ClockAction::Restart, event: None };
    match s.phase {
        Phase::Attract => if input.enter {
            (MenuState { phase: Phase::Transition, ..s }, restart)
        } else {
            (s, keep)
        },
        Phase::Transition => if input.time_up {
            (MenuState { phase: Phase::Menu, ..s }, restart)
        } else {
            (s, keep)
        },
        Phase::Menu => {
            let multi = s.item_count > 1;
            let f1 = if multi && input.up && s.focus > 0 {
                (s.focus - 1) as usize
            } else {
                s.focus
            };
            let f2 = if multi && input.down && f1 + 1 < s.item_count {
                (f1 + 1) as usize
            } else {
                f1
            };
            if input.enter {
                (MenuState { phase: Phase::Selected, focus: f2, ..s }, restart)
            } else {
                (MenuState { focus: f2, ..s }, keep)
            }
        },
        Phase::Selected => if !input.time_up {
            (s, keep)
        } else if s.focus == 0 {
            (s, MenuOutcome { clock: ClockAction::Keep, event: Some(ChangeSceneEvent(SceneId::SceneOne)) })
        } else {
            (MenuState { phase: Phase::Menu, ..s }, MenuOutcome { clock: ClockAction::SetOne, event: None })
        },
    }
}

/// Runs the opening menu.
pub struct MenuSys {}

impl MenuSys {
    pub fn new() -> (s: MenuSys) {
        MenuSys {  }
    }

    /// One frame of the menu.
    pub fn update(&self, state: &mut MenuState, input: MenuInput) -> (out: MenuOutcome)
        requires
            old(state).wf(),
        ensures
            final(state).wf(),
            (*final(state), out) == menu_next(*old(state), input),
    {
        let mut out = MenuOutcome { clock: ClockAction::Keep, event: None };
        match state.phase {
            Phase::Attract => {
                if input.enter {
                    state.phase = Phase::Transition;
                    out.clock = ClockAction::Restart;
                }
            },
            Phase::Transition => {
                if input.time_up {
                    state.phase = Phase::Menu;
                    out.clock = ClockAction::Restart;
                }
            },
            Phase::Menu => {
                if state.item_count > 1 {
                    if input.up && state.focus > 0 {
                        state.focus = state.focus - 1;
                    }
                    if input.down && state.focus + 1 < state.item_count {
                        state.focus = state.focus + 1;
                    }
                }
                if input.enter {
                    state.phase = Phase::Selected;
                    out.clock = ClockAction::Restart;
                }
            },
            Phase::Selected => {
                if input.time_up {
                    if state.focus == 0 {
                        out.event = Some(ChangeSceneEvent(SceneId::SceneOne));
                    } else {
                        state.phase = Phase::Menu;
                        out.clock = ClockAction::SetOne;
                    }
                }
            },
        }
        out
    }
}


/// The focus always points at an item, the item count never changes, and
/// the game starts only from a confirmed first item.
pub proof fn lemma_menu_invariants(s: MenuState, input: MenuInput)
    requires
        s.wf(),
    ensures
        menu_next(s, input).0.wf(),
        menu_next(s, input).0.item_count == s.item_count,
        menu_next(s, input).1.event is Some ==> s.phase == Phase::Selected && s.focus == 0
            && input.time_up,
{
}

/// Only Enter leaves the attract loop.
pub proof fn lemma_attract_needs_enter(s: MenuState, input: MenuInput)
    requires
        s.phase == Phase::Attract,
        !input.enter,
    ensures
        menu_next(s, input).0 == s,
{
}

/// In the menu, Up moves the focus to the previous item and Down to the
/// next, one item per key, stopping at either end and only when there is
/// more than one item; pressing both moves back and then forward.
pub proof fn lemma_menu_focus_moves(s: MenuState, input: MenuInput)
    requires
        s.phase == Phase::Menu,
        s.wf(),
    ensures
        ({
            let f = menu_next(s, input).0.focus;
            &&& (s.item_count > 1 && input.up && !input.down && s.focus > 0) ==> f == s.focus - 1
            &&& (s.item_count > 1 && input.down && !input.up && s.focus + 1 < s.item_count) ==> f
                == s.focus + 1
            &&& (!input.up && !input.down) ==> f == s.focus
            &&& s.item_count <= 1 ==> f == s.focus
            &&& (input.up && !input.down && s.focus == 0) ==> f == 0
            &&& (input.down && !input.up && s.focus + 1 >= s.item_count) ==> f == s.focus
            &&& (s.item_count > 1 && input.up && input.down && s.focus > 0) ==> f == s.focus
        }),
{
}

/// The opening's phases: Enter leaves the attract loop into the transition
/// (restarting the clock); the transition opens the menu when its time is
/// up; in the menu, Enter confirms the focused item (restarting the clock);
/// once the confirmation has played, the first item starts the game and any
/// other returns to the menu with the clock set to one; nothing else changes
/// the phase.
pub proof fn lemma_menu_phases(s: MenuState, input: MenuInput)
    ensures
        ({
            let (s2, out) = menu_next(s, input);
            &&& s.phase == Phase::Attract ==> (s2.phase == Phase::Transition <==> input.enter)
            &&& s.phase == Phase::Attract && input.enter ==> out.clock == ClockAction::Restart
            &&& s.phase == Phase::Transition ==> (s2.phase == Phase::Menu <==> input.time_up)
                && s2.focus == s.focus
            &&& s.phase == Phase::Menu ==> (s2.phase == Phase::Selected <==> input.enter)
            &&& s.phase == Phase::Menu && input.enter ==> out.clock == ClockAction::Restart
            &&& s.phase == Phase::Menu ==> out.event is None
            &&& s.phase == Phase::Selected && input.time_up && s.focus == 0 ==> out.event == Some(
                ChangeSceneEvent(SceneId::SceneOne),
            )
            &&& s.phase == Phase::Selected && input.time_up && s.focus != 0 ==> s2.phase == Phase::Menu
                && out.clock == ClockAction::SetOne && s2.focus == s.focus
            &&& s.phase == Phase::Selected && !input.time_up ==> s2 == s && out.event is None
        }),
{
}

} // verus!
