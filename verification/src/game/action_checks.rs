//! Whether an action request can run now: its target and its range.

use vstd::prelude::*;

use crate::content::{ContentRuntimeHooks, Relation};
use crate::entity::{EntityId, GridPos};
use crate::math::{chebyshev, manhattan, spec_chebyshev, spec_manhattan};
use super::actions::{requirements_for, spec_requirements_for, ActionCommand, RangeRequirement, TargetRequirement};
use super::interaction::TALK_RANGE_MANHATTAN;
use super::state::Game;

verus! {

/// The entity an action is aimed at (a move has none).
pub open spec fn action_subject(command: ActionCommand) -> Option<EntityId> {
    match command {
        ActionCommand::Talk { target } => Some(target),
        ActionCommand::OpenContainer { target } => Some(target),
        ActionCommand::EngageCombat { target, .. } => Some(target),
        ActionCommand::Attack { target } => Some(target),
        ActionCommand::MoveTo { .. } => None,
    }
}

/// The cell an action is aimed at: where its target stands, or a move's destination.
pub open spec fn spec_action_target_pos<H: ContentRuntimeHooks>(game: &Game<H>, command: ActionCommand) -> Option<GridPos> {
    match command {
        ActionCommand::MoveTo { target } => Some(target),
        _ => game.entities.spec_pos(action_subject(command)->0),
    }
}

/// The target of `command` is of the kind the action needs.
pub open spec fn target_requirement_met<H: ContentRuntimeHooks>(game: &Game<H>, command: ActionCommand) -> bool {
    match action_subject(command) {
        None => true,
        Some(t) => match spec_requirements_for(command).target {
            TargetRequirement::Anything => true,
            TargetRequirement::EntityAlive => game.entities.spec_is_alive(t),
            TargetRequirement::Container => (t.0 as int) < game.entities.is_container@.len()
                && game.entities.is_container@[t.0 as int],
            TargetRequirement::HostileToPlayer => game.spec_relation_to_player(t) == Relation::Hostile,
        },
    }
}

/// From `from`, the cell of `command` is within the range the action needs: one step
/// (Chebyshev) for adjacent actions, [`TALK_RANGE_MANHATTAN`] steps (Manhattan) for
/// talking, the very cell for a move.
pub open spec fn range_requirement_met<H: ContentRuntimeHooks>(game: &Game<H>, from: GridPos, command: ActionCommand) -> bool {
    match spec_action_target_pos(game, command) {
        None => false,
        Some(t) => match spec_requirements_for(command).range {
            RangeRequirement::Adjacent => spec_chebyshev(from, t) <= 1,
            RangeRequirement::TalkRadius => spec_manhattan(from, t) <= TALK_RANGE_MANHATTAN,
            RangeRequirement::OccupyTile => from == t,
        },
    }
}

/// `actor` stands somewhere, the target suits `command`, and it is within range.
pub open spec fn spec_action_requirements_met<H: ContentRuntimeHooks>(
    game: &Game<H>,
    actor: EntityId,
    command: ActionCommand,
) -> bool {
    &&& target_requirement_met(game, command)
    &&& game.entities.spec_pos(actor) matches Some(p)
    &&& range_requirement_met(game, p, command)
}

impl<H: ContentRuntimeHooks> Game<H> {
    /// The cell `command` is aimed at (see [`spec_action_target_pos`]).
    pub fn action_target_pos(&self, command: ActionCommand) -> (r: Option<GridPos>)
        ensures
            r == spec_action_target_pos(self, command),
    {
        match command {
            ActionCommand::Talk { target } => self.entities.pos(target),
            ActionCommand::OpenContainer { target } => self.entities.pos(target),
            ActionCommand::EngageCombat { target, .. } => self.entities.pos(target),
            ActionCommand::Attack { target } => self.entities.pos(target),
            ActionCommand::MoveTo { target } => Some(target),
        }
    }

    /// `actor` may carry out `command` now (see [`spec_action_requirements_met`]).
    pub fn action_requirements_met(&self, actor: EntityId, command: ActionCommand) -> (b: bool)
        ensures
            b == spec_action_requirements_met(self, actor, command),
    {
        let req = requirements_for(command);
        let subject: Option<EntityId> = match command {
            ActionCommand::Talk { target } => Some(target),
            ActionCommand::OpenContainer { target } => Some(target),
            ActionCommand::EngageCombat { target, .. } => Some(target),
            ActionCommand::Attack { target } => Some(target),
            ActionCommand::MoveTo { .. } => None,
        };
        if let Some(target) = subject {
            match req.target {
                TargetRequirement::Anything => {},
                TargetRequirement::EntityAlive => {
                    if !self.entities.is_alive(target) {
                        return false;
                    }
                },
                TargetRequirement::Container => {
                    let i = target.0 as usize;
                    if !(i < self.entities.is_container.len() && self.entities.is_container[i]) {
                        return false;
                    }
                },
                TargetRequirement::HostileToPlayer => {
                    if !self.is_hostile_to_player(target) {
                        return false;
                    }
                },
            }
        }
        let actor_pos = match self.entities.pos(actor) {
            Some(p) => p,
            None => { return false; },
        };
        let t = match self.action_target_pos(command) {
            Some(t) => t,
            None => { return false; },
        };
        match req.range {
            RangeRequirement::Adjacent => chebyshev(actor_pos, t) <= 1,
            RangeRequirement::TalkRadius => manhattan(actor_pos, t) <= TALK_RANGE_MANHATTAN,
            RangeRequirement::OccupyTile => actor_pos.x == t.x && actor_pos.y == t.y,
        }
    }
}

} // verus!
