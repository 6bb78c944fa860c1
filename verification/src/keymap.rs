//! Key bindings and input pacing used by the game shell.

use vstd::prelude::*;

use crate::game::key_commands::{
    default_browse_modal_bindings, default_combat_bindings, default_confirm_modal_bindings,
    default_exploration_bindings, default_game_key_map, default_transfer_bindings, GameKeyMap,
};
use crate::game::modes::GameMode;

verus! {

/// The bindings the game runs with: the default layout.
pub fn game_key_map() -> (m: GameKeyMap)
    ensures
        m.exploration@ == default_exploration_bindings(),
        m.combat@ == default_combat_bindings(),
        m.confirm_modal@ == default_confirm_modal_bindings(),
        m.browse_modal@ == default_browse_modal_bindings(),
        m.transfer@ == default_transfer_bindings(),
{
    default_game_key_map()
}

/// How long the shell waits for input before the next frame, in milliseconds: no wait on
/// the first frame, 16 ms (about 60 frames a second) while exploring or fighting so
/// walking and scrolling stay responsive, 250 ms in menus and other screens.
pub fn poll_interval_ms(mode: Option<&GameMode>, first_frame: bool) -> (ms: u64)
    ensures
        ms == if first_frame {
            0u64
        } else {
            match mode {
                Some(GameMode::Exploration) => 16u64,
                Some(GameMode::Combat(_)) => 16u64,
                _ => 250u64,
            }
        },
{
    if first_frame {
        return 0;
    }
    match mode {
        Some(GameMode::Exploration) => 16,
        Some(GameMode::Combat(_)) => 16,
        _ => 250,
    }
}

} // verus!
