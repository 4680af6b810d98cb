pub mod sys_animation;
pub mod sys_menu;

pub use sys_animation::AnimationSys;
pub use sys_menu::{MenuState, MenuSys, Phase};
