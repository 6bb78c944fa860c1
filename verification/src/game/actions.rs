//! Action requests and the range / target each action needs.

use vstd::prelude::*;

use crate::combat::EncounterProfile;
use crate::entity::{EntityId, GridPos};

verus! {

#[derive(Clone, Copy, Debug, PartialEq, Eq, Structural)]
pub enum ActionInitiator {
    Player,
    Npc(EntityId),
    System,
}

#[derive(Clone, Copy, Debug, PartialEq, Eq, Structural)]
pub enum ActionCommand {
    Talk { target: EntityId },
    OpenContainer { target: EntityId },
    EngageCombat { target: EntityId, profile: EncounterProfile },
    Attack { target: EntityId },
    MoveTo { target: GridPos },
}

#[derive(Clone, Copy, Debug, PartialEq, Eq, Structural)]
pub enum RangeRequirement {
    Adjacent,
    TalkRadius,
    OccupyTile,
}

#[derive(Clone, Copy, Debug, PartialEq, Eq, Structural)]
pub enum TargetRequirement {
    /// Any target (or none).
    Anything,
    EntityAlive,
    Container,
    HostileToPlayer,
}

#[derive(Clone, Copy, Debug, PartialEq, Eq, Structural)]
pub struct ActionRequirements {
    pub range: RangeRequirement,
    pub target: TargetRequirement,
}

#[derive(Clone, Copy, Debug, PartialEq, Eq, Structural)]
pub enum ActionStopReason {
    ReachedRange,
    NoPath,
    Blocked,
    Interrupted,
}

#[derive(Clone, Copy, Debug, PartialEq, Eq, Structural)]
pub struct ActionRequest {
    pub initiator: ActionInitiator,
    pub actor: EntityId,
    pub command: ActionCommand,
}

pub open spec fn spec_requirements_for(command: ActionCommand) -> ActionRequirements {
    match command {
        ActionCommand::Talk { .. } => ActionRequirements {
            range: RangeRequirement::TalkRadius,
            target: TargetRequirement::EntityAlive,
        },
        ActionCommand::OpenContainer { .. } => ActionRequirements {
            range: RangeRequirement::Adjacent,
            target: TargetRequirement::Container,
        },
        ActionCommand::EngageCombat { .. } => ActionRequirements {
            range: RangeRequirement::Adjacent,
            target: TargetRequirement::HostileToPlayer,
        },
        ActionCommand::Attack { .. } => ActionRequirements {
            range: RangeRequirement::Adjacent,
            target: TargetRequirement::EntityAlive,
        },
        ActionCommand::MoveTo { .. } => ActionRequirements {
            range: RangeRequirement::OccupyTile,
            target: TargetRequirement::Anything,
        },
    }
}

/// Range and target an action needs before it can run.
pub fn requirements_for(command: ActionCommand) -> (r: ActionRequirements)
    ensures
        r == spec_requirements_for(command),
{
    match command {
        ActionCommand::Talk { .. } => ActionRequirements {
            range: RangeRequirement::TalkRadius,
            target: TargetRequirement::EntityAlive,
        },
        ActionCommand::OpenContainer { .. } => ActionRequirements {
            range: RangeRequirement::Adjacent,
            target: TargetRequirement::Container,
        },
        ActionCommand::EngageCombat { .. } => ActionRequirements {
            range: RangeRequirement::Adjacent,
            target: TargetRequirement::HostileToPlayer,
        },
        ActionCommand::Attack { .. } => ActionRequirements {
            range: RangeRequirement::Adjacent,
            target: TargetRequirement::EntityAlive,
        },
        ActionCommand::MoveTo { .. } => ActionRequirements {
            range: RangeRequirement::OccupyTile,
            target: TargetRequirement::Anything,
        },
    }
}

} // verus!
