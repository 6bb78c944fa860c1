//! Input handling for the small modes: game over, the quest journal, spell targeting, and
//! leaving a fight on request.

use vstd::prelude::*;

use crate::combat::CombatState;
use crate::content::ContentRuntimeHooks;
use crate::entity::GridPos;
use crate::input::{InputEvent, MouseButton};
use crate::math::spec_within_euclidean_radius;
use super::key_commands::{GameCommand, GameInput};
use super::modes::GameMode;
use super::services::combat::{combat_finished, finish_combat};
use super::spell::{cast_spell, def, fireball_cast, in_range, spec_def, spec_range, SpellKind};
use super::state::{lemma_lines_push, lines, popped, Game};

verus! {

/// `after` is `before` with only the debug overlay flipped.
pub open spec fn debug_toggled<H: ContentRuntimeHooks>(before: &Game<H>, after: &Game<H>) -> bool {
    *after == (Game { debug_overlay: !before.debug_overlay, ..*before })
}

/// `after` is `before` with `msg` logged.
pub open spec fn line_logged<H: ContentRuntimeHooks>(before: &Game<H>, after: &Game<H>, msg: Seq<char>) -> bool {
    &&& *after == (Game { log: after.log, ..*before })
    &&& lines(after.log@) == lines(before.log@).push(msg)
}

/// `after` is `before` with the mode stack replaced by `stack`.
pub open spec fn modes_set<H: ContentRuntimeHooks>(before: &Game<H>, after: &Game<H>, stack: Seq<GameMode>) -> bool {
    &&& *after == (Game { modes: after.modes, ..*before })
    &&& after.modes.stack@ == stack
}

/// `after` is `before` with the mode stack replaced by `stack` and `msg` logged.
pub open spec fn modes_set_and_logged<H: ContentRuntimeHooks>(
    before: &Game<H>,
    after: &Game<H>,
    stack: Seq<GameMode>,
    msg: Seq<char>,
) -> bool {
    &&& *after == (Game { modes: after.modes, log: after.log, ..*before })
    &&& after.modes.stack@ == stack
    &&& lines(after.log@) == lines(before.log@).push(msg)
}

/// The stack with its active mode replaced by `m` (unchanged when empty).
pub open spec fn with_top(s: Seq<GameMode>, m: GameMode) -> Seq<GameMode> {
    if s.len() > 0 { s.update(s.len() - 1, m) } else { s }
}

/// The journal's active mode with its cursor replaced by `f` of the old one (nothing
/// changes when the journal is not the active mode).
pub open spec fn journal_cursor_moved<H: ContentRuntimeHooks>(
    before: &Game<H>,
    after: &Game<H>,
    f: spec_fn(usize) -> int,
) -> bool {
    let s = before.modes.stack@;
    if s.len() > 0 && s.last() is Journal {
        modes_set(before, after, with_top(s, GameMode::Journal { quest_cursor: f(s.last()->quest_cursor) as usize }))
    } else {
        *after == *before
    }
}

/// The journal after input `ev` (with `picked` the quest under the pointer): back closes
/// it, the list keys move the cursor one step within the quest list, and a hover or left
/// click on a listed quest selects it.
pub open spec fn journal_handled<H: ContentRuntimeHooks>(
    before: &Game<H>,
    after: &Game<H>,
    ev: GameInput,
    picked: Option<usize>,
) -> bool {
    let n = before.narrative.quest_journal@.len() as int;
    match ev {
        GameInput::Command(GameCommand::ToggleDebug) => debug_toggled(before, after),
        GameInput::Command(GameCommand::Back) => mode_closed(before, after),
        GameInput::Command(GameCommand::ListPrev) => journal_cursor_moved(
            before,
            after,
            |c: usize| if c > 0 { c - 1 } else { 0 },
        ),
        GameInput::Command(GameCommand::ListNext) => journal_cursor_moved(
            before,
            after,
            |c: usize| if c + 1 < (if n > 0 { n - 1 } else { 0 }) { c + 1 } else { if n > 0 { n - 1 } else { 0 } },
        ),
        GameInput::Raw(e) => match picked {
            Some(i) => if is_pointer_pick(e) && i < n {
                journal_cursor_moved(before, after, |c: usize| i as int)
            } else {
                *after == *before
            },
            None => *after == *before,
        },
        _ => *after == *before,
    }
}

/// A pointer event that moves list cursors: a hover or a left click.
pub open spec fn is_pointer_pick(ev: InputEvent) -> bool {
    ev is MouseMove || ev matches InputEvent::MouseDown { button: MouseButton::Left, .. }
}

/// The active mode when it aims `spell`-targeting, with its cursor moved to `c`; nothing
/// changes otherwise.
pub open spec fn spell_cursor_set<H: ContentRuntimeHooks>(before: &Game<H>, after: &Game<H>, c: GridPos) -> bool {
    let s = before.modes.stack@;
    if s.len() > 0 && s.last() is SpellTargeting {
        modes_set(before, after, with_top(s, GameMode::SpellTargeting { spell: s.last()->spell, cursor: c }))
    } else {
        *after == *before
    }
}

/// `mid` is `before` with its active mode closed.
pub open spec fn mode_closed<H: ContentRuntimeHooks>(before: &Game<H>, mid: &Game<H>) -> bool {
    modes_set(before, mid, popped(before.modes.stack@))
}

/// Casting `spell` at `cursor` from the targeting mode: the mode closes; with no player
/// that is all; a target beyond the spell's range is refused with
/// `"<name> is out of range."`; a spell on cooldown logs so; otherwise the spell goes off.
pub open spec fn spell_tried<H: ContentRuntimeHooks>(
    before: &Game<H>,
    after: &Game<H>,
    spell: SpellKind,
    cursor: GridPos,
) -> bool {
    exists|mid: Game<H>| #[trigger] mode_closed(before, &mid) && match before.spec_player_pos() {
        None => *after == mid,
        Some(pp) => if !spec_within_euclidean_radius(pp, cursor, spec_range(spell)) {
            line_logged(&mid, after, spec_def(spell).name@ + " is out of range."@)
        } else if before.fireball_cooldown_ticks > 0 {
            line_logged(&mid, after, "Spell is still on cooldown."@)
        } else {
            fireball_cast(&mid, after, cursor, spec_def(spell))
        },
    }
}

/// Leaving the targeting mode without casting.
pub open spec fn targeting_cancelled<H: ContentRuntimeHooks>(before: &Game<H>, after: &Game<H>) -> bool {
    modes_set_and_logged(before, after, popped(before.modes.stack@), "Spell cancelled."@)
}

/// `after` follows `before` on input `ev` on the game-over screen: the debug toggle flips
/// the overlay; confirm or back return to the main menu, saying so; anything else changes
/// nothing.
pub open spec fn game_over_handled<H: ContentRuntimeHooks>(before: &Game<H>, after: &Game<H>, ev: GameInput) -> bool {
    match ev {
        GameInput::Command(GameCommand::ToggleDebug) => debug_toggled(before, after),
        GameInput::Command(GameCommand::Confirm) => modes_set_and_logged(
            before,
            after,
            seq![GameMode::MainMenu { selected: 0 }],
            "Main menu."@,
        ),
        GameInput::Command(GameCommand::Back) => modes_set_and_logged(
            before,
            after,
            seq![GameMode::MainMenu { selected: 0 }],
            "Main menu."@,
        ),
        _ => *after == *before,
    }
}

/// `after` follows `before` on input `ev` while aiming `spell` at `cursor`: the step keys
/// nudge the aim by one cell, confirm casts, back or a right click cancels; the pointer
/// aims at `pointer_cell` (the world cell under it), and a left click casts there, or
/// cancels when the pointer is off the world; anything else changes nothing.
pub open spec fn spell_targeting_handled<H: ContentRuntimeHooks>(
    before: &Game<H>,
    after: &Game<H>,
    ev: GameInput,
    spell: SpellKind,
    cursor: GridPos,
    pointer_cell: Option<GridPos>,
) -> bool {
    match ev {
        GameInput::Command(GameCommand::Back) => targeting_cancelled(before, after),
        GameInput::Command(GameCommand::Confirm) => spell_tried(before, after, spell, cursor),
        GameInput::Command(GameCommand::StepNorth) => spell_cursor_set(
            before,
            after,
            GridPos { x: cursor.x, y: (cursor.y - 1) as i32 },
        ),
        GameInput::Command(GameCommand::StepSouth) => spell_cursor_set(
            before,
            after,
            GridPos { x: cursor.x, y: (cursor.y + 1) as i32 },
        ),
        GameInput::Command(GameCommand::StepWest) => spell_cursor_set(
            before,
            after,
            GridPos { x: (cursor.x - 1) as i32, y: cursor.y },
        ),
        GameInput::Command(GameCommand::StepEast) => spell_cursor_set(
            before,
            after,
            GridPos { x: (cursor.x + 1) as i32, y: cursor.y },
        ),
        GameInput::Raw(InputEvent::MouseMove { .. }) => match pointer_cell {
            Some(wp) => spell_cursor_set(before, after, wp),
            None => *after == *before,
        },
        GameInput::Raw(InputEvent::MouseDown { button: MouseButton::Left, .. }) => match pointer_cell {
            Some(wp) => exists|g1: Game<H>| #[trigger] spell_cursor_set(before, &g1, wp) && spell_tried(
                &g1,
                after,
                spell,
                wp,
            ),
            None => targeting_cancelled(before, after),
        },
        GameInput::Raw(InputEvent::MouseDown { button: MouseButton::Right, .. }) => targeting_cancelled(
            before,
            after,
        ),
        _ => *after == *before,
    }
}

impl<H: ContentRuntimeHooks> Game<H> {
    /// The game-over screen: any confirm or back returns to the main menu.
    pub fn handle_game_over(&mut self, ev: GameInput)
        requires
            old(self).wf(),
        ensures
            final(self).wf(),
            game_over_handled(old(self), final(self), ev),
    {
        match ev {
            GameInput::Command(GameCommand::ToggleDebug) => {
                self.debug_overlay = !self.debug_overlay;
            },
            GameInput::Command(GameCommand::Confirm) | GameInput::Command(GameCommand::Back) => {
                self.modes.stack = vec![GameMode::MainMenu { selected: 0 }];
                let m = String::from_str("Main menu.");
                proof { lemma_lines_push(self.log@, m); }
                self.log.push(m);
                assert(self.modes.stack@ =~= seq![GameMode::MainMenu { selected: 0 }]);
            },
            _ => {},
        }
    }

    /// Leaving a fight from the keyboard: says so, then ends the encounter as
    /// [`finish_combat`] does.
    pub fn finish_combat_player_quit(&mut self, state: &CombatState)
        requires
            old(self).wf(),
        ensures
            final(self).wf(),
            exists|mid: Game<H>| #[trigger] line_logged(old(self), &mid, "You leave the fight."@) && combat_finished(
                &mid,
                final(self),
                state@,
            ),
    {
        let m = String::from_str("You leave the fight.");
        proof { lemma_lines_push(self.log@, m); }
        self.log.push(m);
        let ghost mid = *self;
        finish_combat(self, state);
        assert(line_logged(old(self), &mid, "You leave the fight."@));
    }

    /// The quest journal: back closes it, the list keys move its cursor within the quest
    /// list, and a hover or left click on quest `picked` (what the screen layout reports
    /// under the pointer) selects it.
    pub fn handle_journal(&mut self, ev: GameInput, picked: Option<usize>)
        requires
            old(self).wf(),
        ensures
            final(self).wf(),
            journal_handled(old(self), final(self), ev, picked),
    {
        let n = self.narrative.quest_journal.len();
        let last = if n > 0 { n - 1 } else { 0 };
        let top: Option<usize> = match self.modes.current() {
            Some(GameMode::Journal { quest_cursor }) => Some(*quest_cursor),
            _ => None,
        };
        match ev {
            GameInput::Command(GameCommand::ToggleDebug) => {
                self.debug_overlay = !self.debug_overlay;
            },
            GameInput::Command(GameCommand::Back) => {
                let _ = self.modes.pop();
            },
            GameInput::Command(GameCommand::ListPrev) => {
                if let Some(c) = top {
                    let k = self.modes.stack.len() - 1;
                    self.modes.stack.set(k, GameMode::Journal { quest_cursor: if c > 0 { c - 1 } else { 0 } });
                }
            },
            GameInput::Command(GameCommand::ListNext) => {
                if let Some(c) = top {
                    let k = self.modes.stack.len() - 1;
                    self.modes.stack.set(k, GameMode::Journal { quest_cursor: if c < last { c + 1 } else { last } });
                }
            },
            GameInput::Raw(e) => {
                let pick = match e {
                    InputEvent::MouseMove { .. } => true,
                    InputEvent::MouseDown { button: MouseButton::Left, .. } => true,
                    _ => false,
                };
                if pick {
                    if let Some(i) = picked {
                        if i < n {
                            if let Some(_) = top {
                                let k = self.modes.stack.len() - 1;
                                self.modes.stack.set(k, GameMode::Journal { quest_cursor: i });
                            }
                        }
                    }
                }
            },
            _ => {},
        }
    }

    /// Moves the aim of the active spell-targeting mode to `c`.
    fn set_spell_cursor(&mut self, c: GridPos)
        ensures
            spell_cursor_set(old(self), final(self), c),
    {
        let spell = match self.modes.current() {
            Some(GameMode::SpellTargeting { spell, .. }) => *spell,
            _ => { return; },
        };
        let k = self.modes.stack.len() - 1;
        self.modes.stack.set(k, GameMode::SpellTargeting { spell, cursor: c });
    }

    /// Casts `spell` at `cursor` from the targeting mode (see [`spell_tried`]).
    pub fn try_cast_targeted_spell(&mut self, spell: SpellKind, cursor: GridPos)
        requires
            old(self).wf(),
        ensures
            final(self).wf(),
            spell_tried(old(self), final(self), spell, cursor),
    {
        let d = def(spell);
        let caster = self.player_pos();
        let _ = self.modes.pop();
        let ghost mid = *self;
        assert(mode_closed(old(self), &mid));
        let pp = match caster {
            Some(p) => p,
            None => { return; },
        };
        if in_range(pp, cursor, spell) {
            match cast_spell(self, spell, cursor) {
                Ok(()) => {},
                Err(msg) => {
                    let m = String::from_str(msg);
                    proof { lemma_lines_push(self.log@, m); }
                    self.log.push(m);
                },
            }
        } else {
            let m = String::from_str(d.name).concat(" is out of range.");
            proof { lemma_lines_push(self.log@, m); }
            self.log.push(m);
        }
    }

    /// Spell targeting: the step keys nudge the aim by one cell, confirm casts, back or a
    /// right click cancels; the pointer aims at `pointer_cell` (the world cell under it, as
    /// the screen layout reports), and a left click casts there, or cancels when the
    /// pointer is off the world.
    pub fn handle_spell_targeting(
        &mut self,
        ev: GameInput,
        spell: SpellKind,
        cursor: GridPos,
        pointer_cell: Option<GridPos>,
    )
        requires
            old(self).wf(),
            ev == GameInput::Command(GameCommand::StepNorth) ==> cursor.y > i32::MIN,
            ev == GameInput::Command(GameCommand::StepSouth) ==> cursor.y < i32::MAX,
            ev == GameInput::Command(GameCommand::StepWest) ==> cursor.x > i32::MIN,
            ev == GameInput::Command(GameCommand::StepEast) ==> cursor.x < i32::MAX,
        ensures
            final(self).wf(),
            spell_targeting_handled(old(self), final(self), ev, spell, cursor, pointer_cell),
    {
        match ev {
            GameInput::Command(GameCommand::Back) => self.cancel_targeting(),
            GameInput::Command(GameCommand::Confirm) => self.try_cast_targeted_spell(spell, cursor),
            GameInput::Command(GameCommand::StepNorth) => self.set_spell_cursor(GridPos { x: cursor.x, y: cursor.y - 1 }),
            GameInput::Command(GameCommand::StepSouth) => self.set_spell_cursor(GridPos { x: cursor.x, y: cursor.y + 1 }),
            GameInput::Command(GameCommand::StepWest) => self.set_spell_cursor(GridPos { x: cursor.x - 1, y: cursor.y }),
            GameInput::Command(GameCommand::StepEast) => self.set_spell_cursor(GridPos { x: cursor.x + 1, y: cursor.y }),
            GameInput::Raw(InputEvent::MouseMove { .. }) => {
                if let Some(wp) = pointer_cell {
                    self.set_spell_cursor(wp);
                }
            },
            GameInput::Raw(InputEvent::MouseDown { button: MouseButton::Left, .. }) => match pointer_cell {
                Some(wp) => {
                    self.set_spell_cursor(wp);
                    let ghost g1 = *self;
                    self.try_cast_targeted_spell(spell, wp);
                    assert(spell_cursor_set(old(self), &g1, wp));
                },
                None => self.cancel_targeting(),
            },
            GameInput::Raw(InputEvent::MouseDown { button: MouseButton::Right, .. }) => self.cancel_targeting(),
            _ => {},
        }
    }

    /// Leaves the targeting mode and says so.
    fn cancel_targeting(&mut self)
        ensures
            targeting_cancelled(old(self), final(self)),
    {
        let _ = self.modes.pop();
        let m = String::from_str("Spell cancelled.");
        proof { lemma_lines_push(self.log@, m); }
        self.log.push(m);
    }
}

} // verus!
