//! The dash after-image colour is sampled from the outfit sprite.

pub use crate::scene::battle_test::sys_dash::outfit_dominant_color;
