//! Switching scenes: a requested scene loads behind a loading screen, which
//! stays up for at least a minimum time.

use vstd::prelude::*;
use crate::scene::factory::SceneId;

verus! {

/// Whether a scene is running or the loading screen is up.
#[derive(Clone, Copy, PartialEq, Eq, Debug, Structural)]
pub enum SceneStage {
    Idle,
    Transition,
}

/// The scene switcher's state.
#[derive(Clone, Copy, PartialEq, Eq, Debug, Structural)]
pub struct SceneSwitch {
    pub stage: SceneStage,
}

impl SceneSwitch {
    /// The game boots into the loading screen's idle scene.
    pub fn new() -> (s: SceneSwitch)
        ensures
            s.stage == SceneStage::Idle,
    {
        SceneSwitch { stage: SceneStage::Idle }
    }

    /// While a scene runs, a request starts loading the requested scene
    /// behind the loading screen (the running scene is disposed); during a
    /// transition the request is dropped.
    pub open spec fn requested(self, pending: Option<SceneId>) -> (SceneSwitch, Option<SceneId>) {
        if self.stage == SceneStage::Idle && pending is Some {
            (SceneSwitch { stage: SceneStage::Transition }, pending)
        } else {
            (self, None)
        }
    }

    /// The loaded scene takes over once it is ready and the loading screen
    /// has been up for its minimum time.
    pub open spec fn settled(self, loader_done: bool, waited: bool) -> (SceneSwitch, bool) {
        if self.stage == SceneStage::Transition && loader_done && waited {
            (SceneSwitch { stage: SceneStage::Idle }, true)
        } else {
            (self, false)
        }
    }

    /// A scene change was requested (the latest request of the frame, if
    /// any). Returns the scene to start loading.
    pub fn request(&mut self, pending: Option<SceneId>) -> (start: Option<SceneId>)
        ensures
            (*final(self), start) == old(self).requested(pending),
    {
        match (self.stage, pending) {
            (SceneStage::Idle, Some(id)) => {
                self.stage = SceneStage::Transition;
                Some(id)
            },
            _ => None,
        }
    }

    /// After this frame's loading step. Returns whether to swap the loaded
    /// scene in.
    pub fn settle(&mut self, loader_done: bool, waited: bool) -> (swap: bool)
        ensures
            (*final(self), swap) == old(self).settled(loader_done, waited),
    {
        if self.stage == SceneStage::Transition && loader_done && waited {
            self.stage = SceneStage::Idle;
            true
        } else {
            false
        }
    }
}

/// A scene that is loading is never interrupted: a request during a
/// transition is dropped, the transition ends only when the load has
/// finished and the minimum time has passed, and a running scene is never
/// swapped out without a request.
pub proof fn lemma_transition_not_interrupted(
    s: SceneSwitch,
    pending: Option<SceneId>,
    loader_done: bool,
    waited: bool,
)
    ensures
        s.stage == SceneStage::Transition ==> s.requested(pending) == (s, None::<SceneId>),
        s.stage == SceneStage::Transition && !(loader_done && waited) ==> s.settled(
            loader_done,
            waited,
        ) == (s, false),
        s.stage == SceneStage::Idle ==> s.settled(loader_done, waited) == (s, false),
{
}

} // verus!
