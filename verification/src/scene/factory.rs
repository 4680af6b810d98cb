//! The scenes the game can switch to.

use vstd::prelude::*;

verus! {

/// A scene the game can load.
#[derive(Clone, Copy, PartialEq, Eq, Debug, Structural)]
pub enum SceneId {
    AssetPreview,
    BattleTest,
    SceneOne,
}

/// A request to switch to another scene.
#[derive(Clone, Copy, PartialEq, Eq, Debug, Structural)]
pub struct ChangeSceneEvent(pub SceneId);

} // verus!
