//! Exploration stepping of a single NPC routine (idle, roam, patrol).

use vstd::prelude::*;

use crate::behavior::exploration::{
    plan_goal, routine_step, spec_routine_finish, spec_routine_plan, ExplorationIntent,
};
use crate::behavior::navigation::nav_answer_ok;
use crate::content::NpcRoutineDef;
use crate::entity::{EntityArena, EntityId, GridPos, NpcBrainState};
use crate::world::MapGrid;

verus! {

/// `r` (with brain `b1` and generator state `r1`) may be the next step of `actor`'s
/// `routine` from `from`, starting from brain `b0` and generator state `r0`.
pub open spec fn exploration_step_ok(
    map: &MapGrid,
    entities: &EntityArena,
    actor: EntityId,
    from: GridPos,
    routine: NpcRoutineDef,
    b0: NpcBrainState,
    r0: u64,
    b1: NpcBrainState,
    r1: u64,
    r: Option<GridPos>,
) -> bool {
    let calm = NpcBrainState { alarmed_ticks: 0, ..b0 };
    let plan = spec_routine_plan(map, entities, actor, from, routine, calm, r0);
    &&& r1 == plan.2
    &&& exists|nav: Option<GridPos>|
        #[trigger] nav_answer_ok(map, entities, actor, from, plan_goal(plan.1, from), nav) && {
            let fin = spec_routine_finish(routine, plan.0, plan.1, nav);
            &&& b1 == NpcBrainState { alarmed_ticks: b0.alarmed_ticks, ..fin.1 }
            &&& r == match fin.0 {
                ExplorationIntent::Step(t) => Some(t),
                ExplorationIntent::Idle => None,
            }
        }
}

/// Next cell of `actor`'s routine from `from` (`None`: stay put), advancing its brain and
/// the generator. The post-flee settle counter is left alone.
pub fn next_exploration_step(
    actor: EntityId,
    from: GridPos,
    routine: NpcRoutineDef,
    state: &mut NpcBrainState,
    map: &MapGrid,
    entities: &EntityArena,
    rng_seed: &mut u64,
) -> (r: Option<GridPos>)
    requires
        map.wf(),
        entities.wf(),
    ensures
        exploration_step_ok(map, entities, actor, from, routine, *old(state), *old(rng_seed), *final(state), *final(rng_seed), r),
{
    next_exploration_step_of(actor, from, &routine, state, map, entities, rng_seed)
}

/// [`next_exploration_step`] for a routine held by reference.
pub(crate) fn next_exploration_step_of(
    actor: EntityId,
    from: GridPos,
    routine: &NpcRoutineDef,
    state: &mut NpcBrainState,
    map: &MapGrid,
    entities: &EntityArena,
    rng_seed: &mut u64,
) -> (r: Option<GridPos>)
    requires
        map.wf(),
        entities.wf(),
    ensures
        exploration_step_ok(map, entities, actor, from, *routine, *old(state), *old(rng_seed), *final(state), *final(rng_seed), r),
{
    let alarmed = state.alarmed_ticks;
    state.alarmed_ticks = 0;
    let (intent, nav) = routine_step(map, entities, rng_seed, actor, from, routine, state);
    proof {
        let calm = NpcBrainState { alarmed_ticks: 0, ..*old(state) };
        let plan = spec_routine_plan(map, entities, actor, from, *routine, calm, *old(rng_seed));
        assert(nav_answer_ok(map, entities, actor, from, plan_goal(plan.1, from), nav@));
    }
    state.alarmed_ticks = alarmed;
    match intent {
        ExplorationIntent::Step(t) => Some(t),
        ExplorationIntent::Idle => None,
    }
}

} // verus!
