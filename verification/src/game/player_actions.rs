//! The player's action requests: run at once when in range, otherwise walk toward the
//! target and keep the action queued until it can run.

use vstd::prelude::*;

use crate::behavior::relation::{blueprint_of, spec_blueprint_for};
use crate::combat::{CombatRuleset, EncounterOutcomePolicy, EncounterProfile};
use crate::content::{ContentRuntimeHooks, Relation};
use crate::entity::{EntityArena, EntityId, GridPos};
use crate::game::actions::ActionInitiator;
use crate::search::{first_match, lemma_first_match, lemma_first_match_is, lemma_first_match_none};
use crate::game::action_checks::{spec_action_requirements_met, spec_action_target_pos};
use crate::game::actions::{ActionCommand, ActionRequest, ActionStopReason};
use crate::game::dialogue_input::dialogue_started;
use crate::game::services::combat::{combat_start_outcome, start_combat_encounter};
use crate::game::state::Game;
use crate::game::transfer::transfer_opened;
use crate::game::walk::walk_goal_set;

verus! {

/// What the log says when the player engages a hostile actor.
pub const ENGAGE_MESSAGE: &'static str = "Combat started. LMB attack/move, RMB march, Enter/Space pass, f flee, Esc or q quit.";

/// `after` follows `before` once `actor` tried to carry out `command` at once, and `done`
/// says whether it did: nothing happens unless its requirements are met (see
/// [`spec_action_requirements_met`]); then talking opens the target's dialogue, opening a
/// container its transfer screen, engaging starts a lethal-or-as-given encounter of the
/// two, and a move sends the player toward the cell; an attack is not run from here.
pub open spec fn action_executed<H: ContentRuntimeHooks>(
    before: &Game<H>,
    after: &Game<H>,
    actor: EntityId,
    command: ActionCommand,
    done: bool,
) -> bool {
    if !spec_action_requirements_met(before, actor, command) {
        !done && *after == *before
    } else {
        match command {
            ActionCommand::Talk { target } => done && exists|s: int| #[trigger] dialogue_started(before, after, target, s),
            ActionCommand::OpenContainer { target } => done && transfer_opened(before, after, target),
            ActionCommand::EngageCombat { target, profile } => done && combat_start_outcome(
                before,
                after,
                seq![actor, target],
                profile,
                ENGAGE_MESSAGE@,
            ),
            ActionCommand::MoveTo { target } => done && walk_goal_set(before, after, target),
            ActionCommand::Attack { .. } => !done && *after == *before,
        }
    }
}

/// `after` (and the reason `r`) follows `before` once the player asked for `request`: run
/// at once when possible (the queue is then emptied); otherwise, without a target cell,
/// nothing happens; else the player is sent toward the target cell (see
/// [`walk_goal_set`]) and, when a walk results, the action waits in the queue.
pub open spec fn action_requested<H: ContentRuntimeHooks>(
    before: &Game<H>,
    after: &Game<H>,
    request: ActionRequest,
    r: ActionStopReason,
) -> bool {
    if spec_action_requirements_met(before, request.actor, request.command) && !(request.command is Attack) {
        exists|g1: Game<H>|
            #[trigger] action_executed(before, &g1, request.actor, request.command, true) && r == ActionStopReason::ReachedRange
                && *after == (Game { pending_player_action: None, ..g1 })
    } else {
        match spec_action_target_pos(before, request.command) {
            None => r == ActionStopReason::Interrupted && *after == *before,
            Some(goal) => exists|g2: Game<H>|
                #[trigger] walk_goal_set(before, &g2, goal) && if g2.player_walk_path@.len() == 0 {
                    r == ActionStopReason::NoPath && *after == g2
                } else {
                    r == ActionStopReason::Blocked && *after == (Game { pending_player_action: Some(request.command), ..g2 })
                },
        }
    }
}

/// `after` follows `before` once the queued player action had its tick: off the
/// exploration screen it is dropped; without one nothing happens; without a player it is
/// dropped; otherwise it is tried (see [`action_executed`]) and dropped once it ran.
pub open spec fn pending_action_pumped<H: ContentRuntimeHooks>(before: &Game<H>, after: &Game<H>) -> bool {
    let s = before.modes.stack@;
    if !(s.len() > 0 && s.last() is Exploration) {
        *after == (Game { pending_player_action: None, ..*before })
    } else {
        match before.pending_player_action {
            None => *after == *before,
            Some(cmd) => match before.entities.player {
                None => *after == (Game { pending_player_action: None, ..*before }),
                Some(pid) => exists|g1: Game<H>, done: bool|
                    #[trigger] action_executed(before, &g1, pid, cmd, done) && if done {
                        *after == (Game { pending_player_action: None, ..g1 })
                    } else {
                        *after == g1
                    },
            },
        }
    }
}

/// Lowest slot on `wp` other than `pid`'s that is a live container.
pub open spec fn clicked_container(e: &EntityArena, pid: EntityId, wp: GridPos) -> Option<int> {
    first_match(e.len(), |j: int| e.occupies(j, wp.x, wp.y) && j != pid.0 as int && e.is_container@[j])
}

/// What clicking `wp` asks the player `pid` to do: open a container there; else, for the
/// actor there (not the player, with a blueprint), fight it when hostile, talk to it when
/// it has a dialogue, otherwise walk onto its cell; nothing without either.
pub open spec fn click_command<H: ContentRuntimeHooks>(g: &Game<H>, pid: EntityId, wp: GridPos) -> Option<ActionCommand> {
    match clicked_container(&g.entities, pid, wp) {
        Some(c) => Some(ActionCommand::OpenContainer { target: EntityId(c as u32) }),
        None => match g.entities.spec_first_npc_at(wp.x, wp.y) {
            None => None,
            Some(t) => {
                let target = EntityId(t as u32);
                if t == pid.0 as int {
                    None
                } else {
                    match spec_blueprint_for(&g.content, &g.entities, target) {
                        None => None,
                        Some(bp) => if g.spec_relation_to_player(target) == Relation::Hostile {
                            Some(
                                ActionCommand::EngageCombat {
                                    target,
                                    profile: EncounterProfile {
                                        ruleset: CombatRuleset::Lethal,
                                        outcome_policy: EncounterOutcomePolicy::Plain,
                                    },
                                },
                            )
                        } else if bp.dialogue_id is Some {
                            Some(ActionCommand::Talk { target })
                        } else {
                            Some(ActionCommand::MoveTo { target: wp })
                        },
                    }
                }
            },
        },
    }
}

/// `after` follows `before` once the player clicked the world cell `wp` while exploring:
/// what the click asks for (see [`click_command`]) is requested for the player (see
/// [`action_requested`]); off the exploration screen, without a player or with nothing
/// asked, nothing changes.
pub open spec fn exploration_clicked<H: ContentRuntimeHooks>(before: &Game<H>, after: &Game<H>, wp: GridPos) -> bool {
    let s = before.modes.stack@;
    if s.len() > 0 && s.last() is Exploration && before.entities.player is Some && click_command(
        before,
        before.entities.player->0,
        wp,
    ) is Some {
        let pid = before.entities.player->0;
        exists|r: ActionStopReason|
            #[trigger] action_requested(
                before,
                after,
                ActionRequest { initiator: ActionInitiator::Player, actor: pid, command: click_command(before, pid, wp)->0 },
                r,
            )
    } else {
        *after == *before
    }
}

impl<H: ContentRuntimeHooks> Game<H> {
    /// Carries out `command` for `actor` when it can run now (see [`action_executed`]).
    pub fn execute_player_action_immediate(&mut self, actor: EntityId, command: ActionCommand) -> (done: bool)
        requires
            old(self).wf(),
        ensures
            final(self).wf(),
            action_executed(old(self), final(self), actor, command, done),
    {
        if !self.action_requirements_met(actor, command) {
            return false;
        }
        match command {
            ActionCommand::Talk { target } => {
                let s = self.start_dialogue(target);
                assert(dialogue_started(old(self), &*self, target, s as int));
                true
            },
            ActionCommand::OpenContainer { target } => {
                self.start_item_transfer(target);
                true
            },
            ActionCommand::EngageCombat { target, profile } => {
                let participants = vec![actor, target];
                assert(participants@ =~= seq![actor, target]);
                start_combat_encounter(self, participants, profile, ENGAGE_MESSAGE);
                true
            },
            ActionCommand::MoveTo { target } => {
                self.try_set_player_walk_goal(target);
                true
            },
            ActionCommand::Attack { .. } => false,
        }
    }

    /// Runs `request` now or walks toward it and queues it (see [`action_requested`]).
    pub fn queue_or_execute_player_action(&mut self, request: ActionRequest) -> (r: ActionStopReason)
        requires
            old(self).wf(),
        ensures
            final(self).wf(),
            action_requested(old(self), final(self), request, r),
    {
        if self.execute_player_action_immediate(request.actor, request.command) {
            self.pending_player_action = None;
            return ActionStopReason::ReachedRange;
        }
        let goal = match self.action_target_pos(request.command) {
            Some(g) => g,
            None => {
                return ActionStopReason::Interrupted;
            },
        };
        self.try_set_player_walk_goal(goal);
        if self.player_walk_path.len() == 0 {
            return ActionStopReason::NoPath;
        }
        self.pending_player_action = Some(request.command);
        ActionStopReason::Blocked
    }

    /// Gives the queued player action its tick (see [`pending_action_pumped`]).
    pub fn pump_pending_player_action(&mut self)
        requires
            old(self).wf(),
        ensures
            final(self).wf(),
            pending_action_pumped(old(self), final(self)),
    {
        let explore = match self.modes.current() {
            Some(crate::game::modes::GameMode::Exploration) => true,
            _ => false,
        };
        if !explore {
            self.pending_player_action = None;
            return;
        }
        let cmd = match self.pending_player_action {
            Some(c) => c,
            None => {
                return;
            },
        };
        let pid = match self.entities.player {
            Some(p) => p,
            None => {
                self.pending_player_action = None;
                return;
            },
        };
        if self.execute_player_action_immediate(pid, cmd) {
            self.pending_player_action = None;
        }
    }

    /// What clicking `wp` asks of the player `pid` (see [`click_command`]).
    fn click_command_at(&self, pid: EntityId, wp: GridPos) -> (r: Option<ActionCommand>)
        requires
            self.wf(),
        ensures
            r == click_command(self, pid, wp),
    {
        let ghost p = |j: int| self.entities.occupies(j, wp.x, wp.y) && j != pid.0 as int && self.entities.is_container@[j];
        let n = self.entities.alive.len();
        let mut j: usize = 0;
        while j < n
            invariant
                self.wf(),
                n == self.entities.len(),
                j <= n,
                p == (|j: int| self.entities.occupies(j, wp.x, wp.y) && j != pid.0 as int && self.entities.is_container@[j]),
                forall|k: int| 0 <= k < j ==> !#[trigger] p(k),
            decreases n - j,
        {
            let here = match self.entities.position[j] {
                Some(q) => q.x == wp.x && q.y == wp.y,
                None => false,
            };
            if self.entities.alive[j] && here && j != pid.0 as usize && self.entities.is_container[j] {
                proof {
                    lemma_first_match_is(n as int, p, j as int);
                }
                return Some(ActionCommand::OpenContainer { target: EntityId(j as u32) });
            }
            j = j + 1;
        }
        proof {
            lemma_first_match_none(n as int, p);
            lemma_first_match(n as int, |j: int| self.entities.occupies(j, wp.x, wp.y) && self.entities.npc_kind@[j] is Some);
        }
        let target = match self.entities.first_npc_at(wp.x, wp.y) {
            Some(t) => t,
            None => {
                return None;
            },
        };
        if target.0 == pid.0 {
            return None;
        }
        let bp = match blueprint_of(&self.content, &self.entities, target) {
            Some(b) => b,
            None => {
                return None;
            },
        };
        match self.relation_to_player(target) {
            Relation::Hostile => Some(
                ActionCommand::EngageCombat {
                    target,
                    profile: EncounterProfile { ruleset: CombatRuleset::Lethal, outcome_policy: EncounterOutcomePolicy::Plain },
                },
            ),
            _ => if bp.dialogue_id.is_some() {
                Some(ActionCommand::Talk { target })
            } else {
                Some(ActionCommand::MoveTo { target: wp })
            },
        }
    }

    /// A click on the world cell `wp` while exploring (see [`exploration_clicked`]); the
    /// shell turns the screen cell into `wp`.
    pub fn exploration_primary_click(&mut self, wp: GridPos)
        requires
            old(self).wf(),
        ensures
            final(self).wf(),
            exploration_clicked(old(self), final(self), wp),
    {
        let explore = match self.modes.current() {
            Some(crate::game::modes::GameMode::Exploration) => true,
            _ => false,
        };
        if !explore {
            return;
        }
        let pid = match self.entities.player {
            Some(p) => p,
            None => {
                return;
            },
        };
        match self.click_command_at(pid, wp) {
            Some(command) => {
                let r = self.queue_or_execute_player_action(ActionRequest { initiator: ActionInitiator::Player, actor: pid, command });
                assert(action_requested(
                    old(self),
                    &*self,
                    ActionRequest { initiator: ActionInitiator::Player, actor: pid, command },
                    r,
                ));
            },
            None => {},
        }
    }
}

} // verus!
