//! Exploration encounter detection (who starts combat).

use vstd::prelude::*;

use crate::entity::EntityId;
use crate::search::{first_match, lemma_first_match_is, lemma_first_match_none};
use super::ctx::BehaviorCtx;
use super::threat::should_start_encounter;

verus! {

impl<'a> BehaviorCtx<'a> {
    /// Lowest live slot, other than the player, whose actor should start an encounter.
    pub open spec fn spec_encounter_slot(&self, player: EntityId) -> Option<int> {
        first_match(self.entities.len(), self.encounter_pred(player))
    }

    pub open spec fn encounter_pred(&self, player: EntityId) -> spec_fn(int) -> bool {
        |j: int| self.entities.alive@[j] && j != player.0 && self.spec_should_start(EntityId(j as u32))
    }
}

/// First NPC that should start an encounter with the player, as `(player, hostile)`.
pub fn find_encounter_start(ctx: &BehaviorCtx<'_>) -> (r: Option<(EntityId, EntityId)>)
    requires
        ctx.entities.wf(),
    ensures
        r == (match ctx.player {
            None => None,
            Some(p) => match ctx.spec_encounter_slot(p) {
                Some(j) => Some((p, EntityId(j as u32))),
                None => None,
            },
        }),
{
    let player = match ctx.player_id() {
        Some(p) => p,
        None => { return None; },
    };
    let ghost pred = ctx.encounter_pred(player);
    let mut i: usize = 0;
    while i < ctx.entities.alive.len()
        invariant
            i <= ctx.entities.len(),
            ctx.entities.wf(),
            pred == ctx.encounter_pred(player),
            ctx.player == Some(player),
            forall|j: int| 0 <= j < i ==> !#[trigger] pred(j),
        decreases ctx.entities.len() - i,
    {
        assert((i as u32) as int == i as int);
        if ctx.entities.alive[i] && i as u32 != player.0 {
            let eid = EntityId(i as u32);
            if should_start_encounter(ctx, eid) {
                assert(eid == EntityId((i as int) as u32));
                assert(pred(i as int));
                proof { lemma_first_match_is(ctx.entities.len(), pred, i as int); }
                return Some((player, eid));
            }
        }
        assert(!pred(i as int));
        i = i + 1;
    }
    proof { lemma_first_match_none(ctx.entities.len(), pred); }
    None
}

} // verus!
