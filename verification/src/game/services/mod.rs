//! Game services: encounters and NPC behaviour ticks.

pub mod combat;
pub mod behavior;
pub mod combat_ai;
