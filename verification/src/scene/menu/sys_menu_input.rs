//! The title menu's selection: Up and Down move through the options with
//! wrap-around; Enter on STORY starts the battle.

use vstd::prelude::*;
use crate::scene::factory::{ChangeSceneEvent, SceneId};

verus! {

/// Number of options: STORY, ARCADE, ACHIEVEMENTS, OPTIONS.
pub const OPTION_COUNT: usize = 4;

/// The index of STORY, the only option that leads anywhere yet.
pub const STORY_INDEX: usize = 0;

/// The title menu's selection.
pub struct MenuInputSystem {
    pub selected: usize,
}

impl MenuInputSystem {
    pub fn new() -> (s: MenuInputSystem)
        ensures
            s.selected == 0,
    {
        MenuInputSystem { selected: 0 }
    }

    pub open spec fn wf(&self) -> bool {
        self.selected < OPTION_COUNT
    }

    /// The selection after Up and Down, wrapping around.
    pub open spec fn moved(selected: usize, up: bool, down: bool) -> int {
        let s1 = if up {
            (selected + OPTION_COUNT - 1) % (OPTION_COUNT as int)
        } else {
            selected as int
        };
        if down {
            (s1 + 1) % (OPTION_COUNT as int)
        } else {
            s1
        }
    }

    /// One frame of the menu: Up, then Down, then Enter.
    pub fn update(&mut self, up: bool, down: bool, enter: bool) -> (event: Option<ChangeSceneEvent>)
        requires
            old(self).wf(),
        ensures
            final(self).wf(),
            ({
                let s2 = Self::moved(old(self).selected, up, down);
                &&& final(self).selected == s2
                &&& event == if enter && s2 == STORY_INDEX {
                    Some(ChangeSceneEvent(SceneId::BattleTest))
                } else {
                    None::<ChangeSceneEvent>
                }
            }),
    {
        if up {
            self.selected = if self.selected == 0 {
                OPTION_COUNT - 1
            } else {
                self.selected - 1
            };
        }
        if down {
            self.selected = (self.selected + 1) % OPTION_COUNT;
        }
        if enter && self.selected == STORY_INDEX {
            Some(ChangeSceneEvent(SceneId::BattleTest))
        } else {
            None
        }
    }
}


/// Up and Down undo each other: moving up then down (or down then up) comes
/// back to the same option, wrapping around at either end.
pub proof fn lemma_up_down_inverse(selected: usize)
    requires
        selected < OPTION_COUNT,
    ensures
        MenuInputSystem::moved(MenuInputSystem::moved(selected, true, false) as usize, false, true)
            == selected,
        MenuInputSystem::moved(MenuInputSystem::moved(selected, false, true) as usize, true, false)
            == selected,
        0 <= MenuInputSystem::moved(selected, true, false) < OPTION_COUNT,
        0 <= MenuInputSystem::moved(selected, false, true) < OPTION_COUNT,
{
}

} // verus!
