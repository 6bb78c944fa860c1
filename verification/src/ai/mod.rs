//! Combat decision policies and exploration stepping used by the game loop.

pub mod combat;
pub mod exploration;

use vstd::prelude::*;

use crate::combat::{CombatAction, CombatState};
use crate::entity::{EntityArena, EntityId, GridPos};
use crate::world::MapGrid;

verus! {

#[derive(Clone, Copy, Debug, PartialEq, Eq, Structural)]
pub enum AiIntent {
    Combat(CombatAction),
    Wait,
}

/// What a combat policy may look at.
pub struct CombatAiCtx<'a> {
    pub state: &'a CombatState,
    pub map: &'a MapGrid,
    pub entities: &'a EntityArena,
}

/// Picks the current actor's combat intent.
pub trait CombatDecisionPolicy {
    /// `r` is an intent this policy may choose for `actor` in `ctx`.
    spec fn spec_decides(&self, actor: EntityId, ctx: &CombatAiCtx, r: AiIntent) -> bool;

    fn decide(&self, actor: EntityId, ctx: &CombatAiCtx<'_>) -> (r: AiIntent)
        requires
            ctx.map.wf(),
            ctx.entities.wf(),
        ensures
            self.spec_decides(actor, ctx, r),
    ;
}

/// Longer-lived NPC goals.
#[derive(Clone, Copy, Debug, PartialEq, Eq, Structural)]
pub enum NpcTask {
    Idle,
    Investigate { target: GridPos },
    DefendArea { center: GridPos, radius: u16 },
    Flee { from: EntityId },
    SeekHelp { from: EntityId },
    YieldTo { target: EntityId },
    Engage { target: EntityId },
}

/// Chooses an NPC's task from the world state.
pub trait NpcTaskPlanner {
    fn plan_task(&self, actor: EntityId, map: &MapGrid, arena: &EntityArena) -> NpcTask;
}

} // verus!
