pub mod knight;
pub mod skill;
