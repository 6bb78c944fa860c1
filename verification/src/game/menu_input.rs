//! Input on the main menu.

use vstd::prelude::*;

use crate::content::ContentRuntimeHooks;
use crate::input::{InputEvent, MouseButton};
use super::key_commands::{GameCommand, GameInput};
use super::mode_input::{debug_toggled, is_pointer_pick, modes_set, modes_set_and_logged, with_top};
use super::modes::GameMode;
use super::state::{fow_refreshed, lemma_lines_push, Game};

verus! {

/// No live, placed player: starting needs a fresh game.
pub open spec fn player_missing<H: ContentRuntimeHooks>(g: &Game<H>) -> bool {
    match g.entities.player {
        None => true,
        Some(p) => !g.entities.spec_is_alive(p) || g.entities.spec_pos(p) is None,
    }
}

/// `after` is `before` with the menu's selection set to `sel`.
pub open spec fn menu_selected<H: ContentRuntimeHooks>(before: &Game<H>, after: &Game<H>, sel: int) -> bool {
    modes_set(before, after, with_top(before.modes.stack@, GameMode::MainMenu { selected: sel as usize }))
}

/// `after` is `before` asked to quit.
pub open spec fn quit_set<H: ContentRuntimeHooks>(before: &Game<H>, after: &Game<H>) -> bool {
    *after == (Game { quit_requested: true, ..*before })
}

/// The main menu after input `ev` (with `picked` the row under the pointer); `restart`
/// tells whether a fresh game must be started by the caller:
/// - the list keys move the selection one row within the menu, and a hover or left
///   click on a row selects it;
/// - back asks to quit;
/// - confirm on the first row enters the world (a fresh game is asked for when there is
///   no live, placed player), on the second asks to quit;
/// - anything else changes nothing.
pub open spec fn menu_handled<H: ContentRuntimeHooks>(
    before: &Game<H>,
    after: &Game<H>,
    ev: GameInput,
    picked: Option<usize>,
    restart: bool,
) -> bool {
    let sel = before.modes.stack@.last()->MainMenu_selected as int;
    let n = before.menu_items@.len() as int;
    let last = if n > 0 { n - 1 } else { 0 };
    match ev {
        GameInput::Command(GameCommand::ToggleDebug) => !restart && debug_toggled(before, after),
        GameInput::Command(GameCommand::ListPrev) => !restart && menu_selected(before, after, if sel > 0 { sel - 1 } else { 0 }),
        GameInput::Command(GameCommand::ListNext) => !restart && menu_selected(before, after, if sel + 1 < last { sel + 1 } else { last }),
        GameInput::Command(GameCommand::Back) => !restart && quit_set(before, after),
        GameInput::Command(GameCommand::Confirm) => if sel == 0 {
            if player_missing(before) {
                restart && *after == *before
            } else {
                !restart && exists|mid: Game<H>|
                    #[trigger] modes_set_and_logged(before, &mid, seq![GameMode::Exploration], "Entered world."@)
                        && fow_refreshed(&mid, after)
            }
        } else if sel == 1 {
            !restart && quit_set(before, after)
        } else {
            !restart && *after == *before
        },
        GameInput::Raw(e) => !restart && match picked {
            Some(i) => if is_pointer_pick(e) && i < n {
                menu_selected(before, after, i as int)
            } else {
                *after == *before
            },
            None => *after == *before,
        },
        _ => !restart && *after == *before,
    }
}

impl<H: ContentRuntimeHooks> Game<H> {
    /// The main menu (see [`menu_handled`]). Returns whether a fresh game must be started;
    /// loading the level for it is the caller's part.
    pub fn handle_menu(&mut self, ev: GameInput, picked: Option<usize>) -> (restart: bool)
        requires
            old(self).wf(),
            old(self).modes.stack@.len() > 0,
            old(self).modes.stack@.last() is MainMenu,
        ensures
            final(self).wf(),
            menu_handled(old(self), final(self), ev, picked, restart),
    {
        let sel: usize = match self.modes.current() {
            Some(GameMode::MainMenu { selected }) => *selected,
            _ => {
                return false;
            },
        };
        let n = self.menu_items.len();
        let last = if n > 0 { n - 1 } else { 0 };
        let k = self.modes.stack.len() - 1;
        match ev {
            GameInput::Command(GameCommand::ToggleDebug) => {
                self.debug_overlay = !self.debug_overlay;
            },
            GameInput::Command(GameCommand::ListPrev) => {
                self.modes.stack.set(k, GameMode::MainMenu { selected: if sel > 0 { sel - 1 } else { 0 } });
            },
            GameInput::Command(GameCommand::ListNext) => {
                self.modes.stack.set(k, GameMode::MainMenu { selected: if sel < last { sel + 1 } else { last } });
            },
            GameInput::Command(GameCommand::Back) => {
                self.quit_requested = true;
            },
            GameInput::Command(GameCommand::Confirm) => {
                if sel == 0 {
                    let missing = match self.entities.player {
                        None => true,
                        Some(p) => !self.entities.is_alive(p) || self.entities.pos(p).is_none(),
                    };
                    if missing {
                        return true;
                    }
                    self.modes.stack = vec![GameMode::Exploration];
                    let m = String::from_str("Entered world.");
                    proof { lemma_lines_push(self.log@, m); }
                    self.log.push(m);
                    assert(self.modes.stack@ =~= seq![GameMode::Exploration]);
                    let ghost mid = *self;
                    self.refresh_fow();
                    assert(modes_set_and_logged(old(self), &mid, seq![GameMode::Exploration], "Entered world."@));
                } else if sel == 1 {
                    self.quit_requested = true;
                }
            },
            GameInput::Raw(e) => {
                let pick = match e {
                    InputEvent::MouseMove { .. } => true,
                    InputEvent::MouseDown { button: MouseButton::Left, .. } => true,
                    _ => false,
                };
                if pick {
                    if let Some(i) = picked {
                        if i < n {
                            self.modes.stack.set(k, GameMode::MainMenu { selected: i });
                        }
                    }
                }
            },
            _ => {},
        }
        false
    }
}

} // verus!
