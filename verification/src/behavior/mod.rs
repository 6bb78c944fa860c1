//! NPC behavior: a priority list of reactions per blueprint, shared by realtime
//! exploration and turn-based encounters.

pub mod action;
pub mod constraints;
pub mod relation;
pub mod ctx;
pub mod threat;
pub mod encounter;
pub mod navigation;
pub mod events;
pub mod exploration;
pub mod reactions;
pub mod decide;

use vstd::prelude::*;

use crate::combat::CombatAction;
use self::action::NpcAction;

verus! {

/// The combat action an NPC decision stands for.
pub open spec fn spec_npc_action_to_combat(action: NpcAction) -> CombatAction {
    match action {
        NpcAction::Step(target) => CombatAction::Move { target },
        NpcAction::RoamStep(target) => CombatAction::Move { target },
        NpcAction::Attack { target, style } => CombatAction::Attack { target, style },
        NpcAction::Pass => CombatAction::Pass,
        NpcAction::Idle => CombatAction::Pass,
    }
}

/// Maps an NPC decision to the combat action the game applies.
pub fn npc_action_to_combat(action: NpcAction) -> (c: CombatAction)
    ensures
        c == spec_npc_action_to_combat(action),
{
    match action {
        NpcAction::Step(target) => CombatAction::Move { target },
        NpcAction::RoamStep(target) => CombatAction::Move { target },
        NpcAction::Attack { target, style } => CombatAction::Attack { target, style },
        NpcAction::Pass => CombatAction::Pass,
        NpcAction::Idle => CombatAction::Pass,
    }
}

} // verus!
