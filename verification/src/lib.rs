//! Game rules of Heroes of Ironhold: the state machines, counters and
//! integer arithmetic that drive the scenes, written so that each rule
//! states exactly what it does.

pub mod entity;
pub mod manager;
pub mod scene;
