pub mod scene;
pub mod sys_animation;
pub mod sys_attack_effects;
pub mod sys_dash_fx;
pub mod sys_knight_controls;
pub mod sys_offsets;
pub mod sys_player_dash;

pub use scene::AssetPreviewScene;
