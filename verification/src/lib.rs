//! Simulation core of a terminal fantasy RPG: entity storage, the turn-based combat
//! rules, NPC behavior decisions, narrative content validation and related helpers.

pub mod search;
pub mod text;
pub mod math;
pub mod color;
pub mod item;
pub mod entity;
pub mod world;
pub mod content;
pub mod validation;
pub mod level;
pub mod game_content;
pub mod narrative;
pub mod narrative_effects;
pub mod combat;
pub mod step_pacing;
pub mod behavior;
pub mod ai;
pub mod input;
pub mod game;
pub mod keymap;
pub mod prop_migration;
pub mod laws;

use vstd::prelude::*;

verus! {

} // verus!
