//! The game layer: the game state and its modes, key bindings, actions and their checks,
//! interaction probing, encounters, spells, projectiles, area effects, the HUD and the
//! fog texture.

pub mod modes;
pub mod key_commands;
pub mod actions;
pub mod interaction;
pub mod spell;
pub mod projectile;
pub mod fog;
pub mod effects;
pub mod state;
pub mod services;
pub mod hud;
pub mod pending;
pub mod combat_actions;
pub mod mode_input;
pub mod action_checks;
pub mod dialogue;
pub mod status;
pub mod transfer;
pub mod bootstrap;
pub mod combat_input;
pub mod menu_input;
pub mod dialogue_input;
pub mod inventory_input;
pub mod movement;
pub mod walk;
pub mod player_actions;
pub mod frame;
pub mod combat_clicks;
pub mod save;
