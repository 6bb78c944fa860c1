//! Player-facing HUD copy: the mode heading, command footers and the spell status line.

use vstd::prelude::*;

use crate::content::{ContentRuntimeHooks, QuestJournalStatus};
use crate::text::{decimal, spec_decimal};
use super::modes::GameMode;
use super::services::behavior::{spec_active_turn_clock, turn_based_active};
use super::spell::{def, spec_def, SpellKind};
use super::state::Game;

verus! {

/// Short label of the active mode (`turn_based`: a turn clock runs).
pub open spec fn spec_mode_heading(stack: Seq<GameMode>, turn_based: bool) -> Seq<char> {
    if stack.len() == 0 {
        "—"@
    } else {
        match stack.last() {
            GameMode::Exploration => if turn_based { "Turn-based"@ } else { "Explore"@ },
            GameMode::Combat(_) => "Combat"@,
            GameMode::SpellTargeting { .. } => "Aiming"@,
            GameMode::Dialogue { .. } => "Dialogue"@,
            GameMode::Inventory { .. } => "Inventory"@,
            GameMode::Journal { .. } => "Journal"@,
            GameMode::ItemTransfer { .. } => "Transfer"@,
            GameMode::MainMenu { .. } => "Menu"@,
            GameMode::GameOver => "Game over"@,
        }
    }
}

/// Short label of the active mode for the status column.
pub fn mode_heading<H: ContentRuntimeHooks>(game: &Game<H>) -> (s: &'static str)
    ensures
        s@ == spec_mode_heading(game.modes.stack@, spec_active_turn_clock(game) is Some),
{
    match game.modes.current() {
        Some(GameMode::Exploration) => if turn_based_active(game) {
            "Turn-based"
        } else {
            "Explore"
        },
        Some(GameMode::Combat(_)) => "Combat",
        Some(GameMode::SpellTargeting { .. }) => "Aiming",
        Some(GameMode::Dialogue { .. }) => "Dialogue",
        Some(GameMode::Inventory { .. }) => "Inventory",
        Some(GameMode::Journal { .. }) => "Journal",
        Some(GameMode::ItemTransfer { .. }) => "Transfer",
        Some(GameMode::MainMenu { .. }) => "Menu",
        Some(GameMode::GameOver) => "Game over",
        None => "—",
    }
}

/// One-line command footer of the active mode (`turn_based`: a turn clock runs).
pub open spec fn spec_command_footer(stack: Seq<GameMode>, turn_based: bool) -> Seq<char> {
    let top = if stack.len() == 0 { None } else { Some(stack.last()) };
    match top {
        Some(GameMode::Combat(_)) if turn_based => "LMB attack/move   RMB march   Space wait   z fireball   f flee   t realtime   F1 debug"@,
        Some(GameMode::Exploration) if turn_based => "LMB attack/move   RMB march   Space wait   z fireball   f flee   t realtime   F1 debug"@,
        Some(GameMode::Combat(_)) => "LMB attack/move   RMB march   Space wait   z fireball   f flee   Esc cancel   F1 debug"@,
        Some(GameMode::SpellTargeting { .. }) => "WASD/arrows aim   Enter cast   Esc cancel"@,
        Some(GameMode::Inventory { .. }) => "u use   e equip   Up/Down browse   Esc back   F1 debug"@,
        Some(GameMode::Journal { .. }) => "Up/Down browse   PgUp/PgDn scroll   Esc back   F1 debug"@,
        Some(GameMode::ItemTransfer { .. }) => "Enter move stack   Tab side   Esc close   F1 debug"@,
        Some(GameMode::Dialogue { .. }) => "Enter confirm   Esc leave   F1 debug"@,
        Some(GameMode::MainMenu { .. }) => "Enter confirm   Esc quit   F1 debug"@,
        Some(GameMode::GameOver) => "Enter / Esc — main menu"@,
        _ => "LMB interact   RMB move   z fireball   I inventory   J journal   F1 debug"@,
    }
}

/// One-line command footer for the log strip.
pub fn command_footer<H: ContentRuntimeHooks>(game: &Game<H>) -> (s: &'static str)
    ensures
        s@ == spec_command_footer(game.modes.stack@, spec_active_turn_clock(game) is Some),
{
    let turn_based = turn_based_active(game);
    match game.modes.current() {
        Some(GameMode::Combat(_)) if turn_based => {
            "LMB attack/move   RMB march   Space wait   z fireball   f flee   t realtime   F1 debug"
        },
        Some(GameMode::Exploration) if turn_based => {
            "LMB attack/move   RMB march   Space wait   z fireball   f flee   t realtime   F1 debug"
        },
        Some(GameMode::Combat(_)) => {
            "LMB attack/move   RMB march   Space wait   z fireball   f flee   Esc cancel   F1 debug"
        },
        Some(GameMode::SpellTargeting { .. }) => "WASD/arrows aim   Enter cast   Esc cancel",
        Some(GameMode::Inventory { .. }) => "u use   e equip   Up/Down browse   Esc back   F1 debug",
        Some(GameMode::Journal { .. }) => "Up/Down browse   PgUp/PgDn scroll   Esc back   F1 debug",
        Some(GameMode::ItemTransfer { .. }) => "Enter move stack   Tab side   Esc close   F1 debug",
        Some(GameMode::Dialogue { .. }) => "Enter confirm   Esc leave   F1 debug",
        Some(GameMode::MainMenu { .. }) => "Enter confirm   Esc quit   F1 debug",
        Some(GameMode::GameOver) => "Enter / Esc — main menu",
        _ => "LMB interact   RMB move   z fireball   I inventory   J journal   F1 debug",
    }
}

/// Journal label of a quest status.
pub fn status_label(s: QuestJournalStatus) -> (l: &'static str)
    ensures
        l@ == match s {
            QuestJournalStatus::InProgress => "In progress"@,
            QuestJournalStatus::Failed => "Failed"@,
            QuestJournalStatus::Completed => "Completed"@,
        },
{
    match s {
        QuestJournalStatus::InProgress => "In progress",
        QuestJournalStatus::Failed => "Failed",
        QuestJournalStatus::Completed => "Completed",
    }
}

/// The fireball's line in the spell list: ready, or the cooldown left.
pub open spec fn spec_fireball_status_line<H: ContentRuntimeHooks>(game: &Game<H>) -> Seq<char> {
    if game.fireball_cooldown_ticks == 0 {
        "  "@ + spec_def(SpellKind::Fireball).name@ + "  [z] ready"@
    } else {
        "  "@ + spec_def(SpellKind::Fireball).name@ + "  cooldown "@ + spec_decimal(game.fireball_cooldown_ticks as nat)
    }
}

/// The fireball's line in the spell list (see [`spec_fireball_status_line`]).
pub fn fireball_status_line<H: ContentRuntimeHooks>(game: &Game<H>) -> (s: String)
    ensures
        s@ == spec_fireball_status_line(game),
{
    let cd = game.fireball_cooldown_ticks;
    let name = def(SpellKind::Fireball).name;
    if cd == 0 {
        String::from_str("  ").concat(name).concat("  [z] ready")
    } else {
        String::from_str("  ").concat(name).concat("  cooldown ").concat(decimal(cd as u64).as_str())
    }
}

} // verus!
