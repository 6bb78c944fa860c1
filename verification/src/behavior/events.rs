//! World events that change NPC behavior state.

use vstd::prelude::*;

use crate::content::ReactionDef;
use crate::entity::{ActiveReaction, ForcedReaction, GridPos, NpcBrainState};

verus! {

pub open spec fn has_flee_reaction(rs: Seq<ReactionDef>) -> bool {
    exists|j: int| 0 <= j < rs.len() && #[trigger] rs[j] is FleeFromThreat
}

pub open spec fn has_investigate_reaction(rs: Seq<ReactionDef>) -> bool {
    exists|j: int| 0 <= j < rs.len() && #[trigger] rs[j] is InvestigateLastHit
}

/// Brain after its actor is damaged from `attacker_pos`: a fleeing kind starts fleeing (and
/// drops any forced reaction), otherwise an investigating kind goes to look.
pub open spec fn spec_on_damaged(brain: NpcBrainState, rs: Seq<ReactionDef>, attacker_pos: GridPos) -> NpcBrainState {
    if has_flee_reaction(rs) {
        NpcBrainState { active: ActiveReaction::Flee { from: attacker_pos }, forced_reaction: None, ..brain }
    } else if has_investigate_reaction(rs) {
        NpcBrainState { active: ActiveReaction::Investigate(attacker_pos), ..brain }
    } else {
        brain
    }
}

/// Applies the damage-driven reactions of `reactions` to `brain`.
pub fn on_actor_damaged(brain: &mut NpcBrainState, reactions: &[ReactionDef], attacker_pos: GridPos)
    ensures
        *final(brain) == spec_on_damaged(*old(brain), reactions@, attacker_pos),
{
    let mut i: usize = 0;
    let mut flee = false;
    let mut investigate = false;
    while i < reactions.len()
        invariant
            i <= reactions@.len(),
            flee == exists|j: int| 0 <= j < i && #[trigger] reactions@[j] is FleeFromThreat,
            investigate == exists|j: int| 0 <= j < i && #[trigger] reactions@[j] is InvestigateLastHit,
        decreases reactions@.len() - i,
    {
        match &reactions[i] {
            ReactionDef::FleeFromThreat { .. } => { flee = true; },
            ReactionDef::InvestigateLastHit => { investigate = true; },
            _ => {},
        }
        i = i + 1;
    }
    if flee {
        brain.active = ActiveReaction::Flee { from: attacker_pos };
        brain.forced_reaction = None;
        return;
    }
    if investigate {
        brain.active = ActiveReaction::Investigate(attacker_pos);
    }
}

/// Same as [`on_actor_damaged`], for a hit landed in combat.
pub fn on_combat_hit_target(brain: &mut NpcBrainState, reactions: &[ReactionDef], attacker_pos: GridPos)
    ensures
        *final(brain) == spec_on_damaged(*old(brain), reactions@, attacker_pos),
{
    on_actor_damaged(brain, reactions, attacker_pos);
}

/// Imposes a forced flee (magic, abilities).
pub fn force_flee(brain: &mut NpcBrainState, from: GridPos)
    ensures
        *final(brain) == (NpcBrainState { forced_reaction: Some(ForcedReaction::Flee { from }), ..*old(brain) }),
{
    brain.forced_reaction = Some(ForcedReaction::Flee { from });
}

} // verus!
