pub mod asset_preview;
pub mod battle_test;
pub mod factory;
pub mod menu;
pub mod opening;
pub mod scene_one;

pub use factory::{ChangeSceneEvent, SceneId};
