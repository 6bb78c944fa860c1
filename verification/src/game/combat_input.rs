//! Keyboard input on the encounter screen: pass, flee, step, leave, and the turn-based
//! toggle.

use vstd::prelude::*;

use crate::combat::{map_action_outcome, CombatAction, CombatActionReport, CombatStateView};
use crate::content::ContentRuntimeHooks;
use crate::entity::EntityArena;
use super::combat_actions::{combat_moved, player_action_done};
use super::key_commands::{GameCommand, GameInput};
use super::mode_input::line_logged;
use super::modes::GameMode;
use super::services::behavior::top_encounter_set;
use super::services::combat::{combat_finished, toggle_turn_based, turn_session_left};
use super::state::Game;

verus! {

/// The grid step a movement command asks for.
pub open spec fn step_delta(c: GameCommand) -> Option<(i32, i32)> {
    match c {
        GameCommand::StepNorth => Some((0i32, -1i32)),
        GameCommand::StepSouth => Some((0i32, 1i32)),
        GameCommand::StepWest => Some((-1i32, 0i32)),
        GameCommand::StepEast => Some((1i32, 0i32)),
        _ => None,
    }
}

/// `after` follows `before` once the current actor of `s0` ran `action` on the map and the
/// outcome was taken in, the encounter on top (while there is one) then holding the new
/// state.
pub open spec fn combat_acted<H: ContentRuntimeHooks>(before: &Game<H>, after: &Game<H>, s0: CombatStateView, action: CombatAction) -> bool {
    exists|e1: EntityArena, r1: u64, s1: CombatStateView, rep: CombatActionReport|
        #[trigger] map_action_outcome(s0, s1, &before.entities, &e1, before.rng_seed, r1, &before.map, action, rep)
            && exists|mid: Game<H>|
            #[trigger] player_action_done(before, &mid, e1, r1, before.narrative, s1, rep) && top_encounter_set(&mid, after, s1)
}

/// `after` follows `before` once the current actor of `s0` tried to step by `d`, the
/// encounter on top (while there is one) then holding the new state.
pub open spec fn combat_stepped<H: ContentRuntimeHooks>(before: &Game<H>, after: &Game<H>, s0: CombatStateView, d: (i32, i32)) -> bool {
    exists|mid: Game<H>, s1: CombatStateView| #[trigger] combat_moved(before, &mid, s0, s1, d.0, d.1) && top_encounter_set(&mid, after, s1)
}

/// `after` (and the view shift `pan` asked of the shell) follows `before`, whose top mode
/// is an encounter, on input `ev`:
/// - the debug toggle flips the overlay;
/// - confirm passes the turn, the flee command tries to flee (see [`combat_acted`]);
/// - a step command shifts the view when the map is larger than it (`view_pans`),
///   otherwise the current actor steps (see [`combat_stepped`]);
/// - back leaves the fight, saying so; the turn-based toggle leaves turn-based play;
/// - anything else changes nothing.
pub open spec fn combat_input_handled<H: ContentRuntimeHooks>(
    before: &Game<H>,
    after: &Game<H>,
    ev: GameInput,
    view_pans: bool,
    pan: Option<(i32, i32)>,
) -> bool {
    let s0 = before.modes.stack@.last()->Combat_0@;
    match ev {
        GameInput::Command(GameCommand::ToggleDebug) => pan is None && top_encounter_set(
            &Game { debug_overlay: !before.debug_overlay, ..*before },
            after,
            s0,
        ),
        GameInput::Command(GameCommand::Confirm) => pan is None && combat_acted(before, after, s0, CombatAction::Pass),
        GameInput::Command(GameCommand::CombatFlee) => pan is None && combat_acted(before, after, s0, CombatAction::Flee),
        GameInput::Command(GameCommand::Back) => pan is None && exists|mid: Game<H>|
            #[trigger] line_logged(before, &mid, "You leave the fight."@) && combat_finished(&mid, after, s0),
        GameInput::Command(GameCommand::ToggleTurnBased) => pan is None && turn_session_left(before, after, s0),
        GameInput::Command(c) => match step_delta(c) {
            Some(d) => if view_pans {
                pan == Some(d) && top_encounter_set(before, after, s0)
            } else {
                pan is None && combat_stepped(before, after, s0, d)
            },
            None => pan is None && top_encounter_set(before, after, s0),
        },
        GameInput::Raw(_) => pan is None && top_encounter_set(before, after, s0),
    }
}

impl<H: ContentRuntimeHooks> Game<H> {
    /// Input on the encounter screen (see [`combat_input_handled`]). `view_pans` tells
    /// whether the map is larger than the view, so that step keys shift the view; the shift
    /// is returned for the shell to apply. Clicks go to [`Game::encounter_primary_click`] and
    /// [`Game::encounter_secondary_click`].
    pub fn handle_combat(&mut self, ev: GameInput, view_pans: bool) -> (pan: Option<(i32, i32)>)
        requires
            old(self).wf(),
            old(self).modes.stack@.len() > 0,
            old(self).modes.stack@.last() matches GameMode::Combat(c) && c.wf() && (c@.current_actor() matches Some(a)
                ==> (old(self).entities.spec_pos(a) matches Some(p) ==> i32::MIN < p.x < i32::MAX && i32::MIN < p.y
                < i32::MAX)),
        ensures
            final(self).wf(),
            combat_input_handled(old(self), final(self), ev, view_pans, pan),
    {
        let mut next = match self.modes.current() {
            Some(GameMode::Combat(s)) => s.duplicate(),
            _ => {
                return None;
            },
        };
        let ghost s0 = next@;
        let ghost g0 = *self;
        let mut pan: Option<(i32, i32)> = None;
        match ev {
            GameInput::Command(GameCommand::ToggleDebug) => {
                self.debug_overlay = !self.debug_overlay;
            },
            GameInput::Command(GameCommand::Confirm) => {
                let report = next.apply_map_action(CombatAction::Pass, &mut self.entities, &mut self.rng_seed, &self.map);
                let ghost (e1, r1, rep) = (self.entities, self.rng_seed, report);
                let ghost pre = *self;
                self.apply_combat_report(&next, report);
                proof {
                    assert(pre == (Game { entities: e1, rng_seed: r1, narrative: g0.narrative, ..g0 }));
                    assert(player_action_done(&g0, &*self, e1, r1, g0.narrative, next@, rep));
                }
            },
            GameInput::Command(GameCommand::CombatFlee) => {
                let report = next.apply_map_action(CombatAction::Flee, &mut self.entities, &mut self.rng_seed, &self.map);
                let ghost (e1, r1, rep) = (self.entities, self.rng_seed, report);
                let ghost pre = *self;
                self.apply_combat_report(&next, report);
                proof {
                    assert(pre == (Game { entities: e1, rng_seed: r1, narrative: g0.narrative, ..g0 }));
                    assert(player_action_done(&g0, &*self, e1, r1, g0.narrative, next@, rep));
                }
            },
            GameInput::Command(GameCommand::ToggleTurnBased) => {
                toggle_turn_based(self);
                return None;
            },
            GameInput::Command(GameCommand::Back) => {
                self.finish_combat_player_quit(&next);
                return None;
            },
            GameInput::Command(GameCommand::StepNorth) => {
                if view_pans {
                    pan = Some((0, -1));
                } else {
                    self.combat_try_move(&mut next, 0, -1);
                }
            },
            GameInput::Command(GameCommand::StepSouth) => {
                if view_pans {
                    pan = Some((0, 1));
                } else {
                    self.combat_try_move(&mut next, 0, 1);
                }
            },
            GameInput::Command(GameCommand::StepWest) => {
                if view_pans {
                    pan = Some((-1, 0));
                } else {
                    self.combat_try_move(&mut next, -1, 0);
                }
            },
            GameInput::Command(GameCommand::StepEast) => {
                if view_pans {
                    pan = Some((1, 0));
                } else {
                    self.combat_try_move(&mut next, 1, 0);
                }
            },
            _ => {},
        }
        let ghost mid = *self;
        let ghost nv = next@;
        let top_combat = match self.modes.current() {
            Some(GameMode::Combat(_)) => true,
            _ => false,
        };
        if top_combat {
            match self.modes.current_mut() {
                Some(GameMode::Combat(cs)) => {
                    *cs = next;
                },
                _ => {},
            }
            assert(self.modes.stack@.drop_last() =~= mid.modes.stack@.drop_last());
        }
        assert(top_encounter_set(&mid, &*self, nv));
        proof {
            if let GameInput::Command(c) = ev {
                if !view_pans {
                    if let Some(d) = step_delta(c) {
                        assert(combat_moved(&g0, &mid, s0, nv, d.0, d.1));
                    }
                }
            }
        }
        pan
    }
}

} // verus!
