//! Whether an actor may act this tick (realtime pacing vs the turn clock).

use vstd::prelude::*;

use crate::combat::CombatState;
use crate::entity::EntityId;

verus! {

/// Time rules supplied by the game layer.
#[derive(Clone, Copy, Debug, PartialEq, Eq, Structural)]
pub enum ActionPhase {
    /// Overworld realtime: per-actor step cooldowns.
    RealtimeExplore,
    /// Turn session: only the current actor may act, and AP applies.
    Turn { turn_index: usize },
}

#[derive(Clone, Copy, Debug, PartialEq, Eq, Structural)]
pub struct ActionConstraints {
    pub phase: ActionPhase,
    pub actor: EntityId,
    /// An encounter (combat rules) is active, not only the overworld turn clock.
    pub encounter_active: bool,
}

impl ActionConstraints {
    pub open spec fn spec_is_current_turn(&self, clock: &CombatState) -> bool {
        match self.phase {
            ActionPhase::RealtimeExplore => true,
            ActionPhase::Turn { turn_index } => turn_index < clock.initiative@.len()
                && clock.initiative@[turn_index as int] == self.actor,
        }
    }

    pub fn realtime(actor: EntityId) -> (c: ActionConstraints)
        ensures
            c == (ActionConstraints { phase: ActionPhase::RealtimeExplore, actor, encounter_active: false }),
    {
        ActionConstraints { phase: ActionPhase::RealtimeExplore, actor, encounter_active: false }
    }

    pub fn for_turn(clock: &CombatState, actor: EntityId, encounter_active: bool) -> (c: ActionConstraints)
        ensures
            c == (ActionConstraints {
                phase: ActionPhase::Turn { turn_index: clock.turn_index },
                actor,
                encounter_active,
            }),
    {
        ActionConstraints { phase: ActionPhase::Turn { turn_index: clock.turn_index }, actor, encounter_active }
    }

    /// Realtime always allows acting; in a turn session only the slot's actor may act.
    pub fn is_current_turn(&self, clock: &CombatState) -> (b: bool)
        ensures
            b == self.spec_is_current_turn(clock),
    {
        match self.phase {
            ActionPhase::RealtimeExplore => true,
            ActionPhase::Turn { turn_index } => turn_index < clock.initiative.len()
                && clock.initiative[turn_index].0 == self.actor.0,
        }
    }

    pub fn in_turn_session(&self) -> (b: bool)
        ensures
            b == (self.phase is Turn),
    {
        matches!(self.phase, ActionPhase::Turn { .. })
    }
}

} // verus!
