pub mod components;
pub mod sys_animation;
pub mod sys_enemy;
pub mod sys_enemy_animation;
pub mod sys_hurt;
pub mod sys_player;

pub use sys_animation::AnimationSys;
pub use sys_enemy_animation::EnemyAnimationSys;
