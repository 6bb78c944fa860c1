//! The single entry point for NPC decisions.

use vstd::prelude::*;

use crate::combat::CombatState;
use crate::content::{ContentPack, ReactionDef};
use crate::entity::{EntityArena, EntityId, GridPos, NpcBrainState};
use crate::world::MapGrid;
use super::action::NpcAction;
use super::constraints::ActionConstraints;
use super::ctx::BehaviorCtx;
use super::reactions::{
    brain_of, brains_with, lemma_single_answer, oracle_ok, pos_or_origin, react, single_answer,
    spec_forced, spec_react, try_forced,
};
use super::relation::spec_blueprint_for;

verus! {

/// The reactions `rs` from index `k` on, tried in order with the brain and generator
/// state threaded through, reaction `j` navigating through `os(j)`: the first action
/// produced, or `Idle` when none applies.
pub open spec fn spec_decide_from(
    map: &MapGrid,
    entities: &EntityArena,
    content: &ContentPack,
    player: Option<EntityId>,
    actor: EntityId,
    rs: Seq<ReactionDef>,
    k: int,
    brain: NpcBrainState,
    seed: u64,
    constraints: ActionConstraints,
    clock: Option<&CombatState>,
    os: spec_fn(int) -> spec_fn(GridPos) -> Option<GridPos>,
) -> (NpcAction, NpcBrainState, u64)
    decreases rs.len() - k,
{
    if k < 0 || k >= rs.len() {
        (NpcAction::Idle, brain, seed)
    } else {
        let r = spec_react(map, entities, content, player, seed, actor, rs[k], brain, constraints, clock, os(k));
        match r.0 {
            Some(a) => (a, r.1, r.2),
            None => spec_decide_from(map, entities, content, player, actor, rs, k + 1, r.1, r.2, constraints, clock, os),
        }
    }
}

/// Every oracle of `os` gives navigation's answer (see [`nav_step`](crate::behavior::navigation::nav_step)).
pub open spec fn all_oracles_ok(
    map: &MapGrid,
    entities: &EntityArena,
    actor: EntityId,
    from: GridPos,
    os: spec_fn(int) -> spec_fn(GridPos) -> Option<GridPos>,
) -> bool {
    forall|k: int| #![trigger os(k)] oracle_ok(map, entities, actor, from, os(k))
}

/// `a` and `b` agree below `k`.
pub open spec fn agree_below(
    a: spec_fn(int) -> spec_fn(GridPos) -> Option<GridPos>,
    b: spec_fn(int) -> spec_fn(GridPos) -> Option<GridPos>,
    k: int,
) -> bool {
    forall|j: int| #![trigger a(j)] 0 <= j < k ==> a(j) == b(j)
}

/// The entities and generator state `(e1, rng1)` may follow `(e0, rng0)` when `actor`
/// decides `r` with `constraints` on `map` with `content` and the player `player`.
pub open spec fn decided(
    map: &MapGrid,
    content: &ContentPack,
    player: Option<EntityId>,
    e0: &EntityArena,
    rng0: u64,
    e1: &EntityArena,
    rng1: u64,
    actor: EntityId,
    constraints: ActionConstraints,
    clock: Option<&CombatState>,
    r: NpcAction,
) -> bool {
    &&& e1.same_but_brains(e0)
    &&& match spec_blueprint_for(content, e0, actor) {
        None => {
            &&& r == NpcAction::Pass
            &&& e1.npc_brain@ == e0.npc_brain@
            &&& rng1 == rng0
        },
        Some(bp) => exists|
            fo: spec_fn(GridPos) -> Option<GridPos>,
            os: spec_fn(int) -> spec_fn(GridPos) -> Option<GridPos>,
        |
            #![trigger oracle_ok(map, e0, actor, pos_or_origin(e0, actor), fo), all_oracles_ok(map, e0, actor, pos_or_origin(e0, actor), os)]
            oracle_ok(map, e0, actor, pos_or_origin(e0, actor), fo)
                && all_oracles_ok(map, e0, actor, pos_or_origin(e0, actor), os)
                && match spec_forced(map, e0, content, actor, constraints, clock, fo) {
                Some(a) => {
                    &&& r == a
                    &&& e1.npc_brain@ == e0.npc_brain@
                    &&& rng1 == rng0
                },
                None => {
                    let res = spec_decide_from(
                        map,
                        e0,
                        content,
                        player,
                        actor,
                        bp.behavior.reactions@,
                        0,
                        brain_of(e0, actor),
                        rng0,
                        constraints,
                        clock,
                        os,
                    );
                    &&& r == res.0
                    &&& e1.npc_brain@ == brains_with(e0, actor, res.1)
                    &&& rng1 == res.2
                },
            },
    }
}

impl<'a> BehaviorCtx<'a> {
    /// `after` may follow `self` when `actor` decides with `constraints`.
    pub open spec fn decide_outcome(
        &self,
        after: &BehaviorCtx,
        actor: EntityId,
        constraints: ActionConstraints,
        clock: Option<&CombatState>,
        r: NpcAction,
    ) -> bool {
        &&& after.map == self.map
        &&& after.content == self.content
        &&& after.player == self.player
        &&& decided(
            self.map,
            self.content,
            self.player,
            self.entities,
            *self.rng,
            after.entities,
            *after.rng,
            actor,
            constraints,
            clock,
            r,
        )
    }
}

/// Decides what `actor` does this tick: `Pass` without a blueprint, a forced reaction if
/// one applies, else the first blueprint reaction that applies, else `Idle`.
pub fn decide_actor_action(
    ctx: &mut BehaviorCtx<'_>,
    actor: EntityId,
    constraints: ActionConstraints,
    clock: Option<&CombatState>,
) -> (r: NpcAction)
    requires
        old(ctx).map.wf(),
        old(ctx).entities.wf(),
    ensures
        final(ctx).entities.wf(),
        old(ctx).decide_outcome(final(ctx), actor, constraints, clock, r),
        *final(final(ctx).entities) == *final(old(ctx).entities),
        *final(final(ctx).rng) == *final(old(ctx).rng),
{
    let bp = match ctx.blueprint_for(actor) {
        Some(bp) => bp,
        None => { return NpcAction::Pass; },
    };
    let forced = try_forced(ctx, actor, constraints, clock);
    let ghost fo = choose|o: spec_fn(GridPos) -> Option<GridPos>|
        #[trigger] oracle_ok(old(ctx).map, old(ctx).entities, actor, pos_or_origin(old(ctx).entities, actor), o)
            && forced == spec_forced(old(ctx).map, old(ctx).entities, old(ctx).content, actor, constraints, clock, o);
    let ghost from0 = pos_or_origin(ctx.entities, actor);
    let ghost none_o = single_answer(ctx.map, ctx.entities, actor, from0, from0, None);
    proof { lemma_single_answer(ctx.map, ctx.entities, actor, from0, from0, None); }
    match forced {
        Some(a) => {
            proof {
                let os = |k: int| none_o;
                assert(all_oracles_ok(ctx.map, ctx.entities, actor, from0, os));
            }
            return a;
        },
        None => {},
    }
    let i = actor.0 as usize;
    let mut brain = if i < ctx.entities.npc_brain.len() {
        ctx.entities.npc_brain[i]
    } else {
        NpcBrainState::default()
    };
    let rs = &bp.behavior.reactions;
    let ghost c0 = *ctx;
    let ghost mut os: spec_fn(int) -> spec_fn(GridPos) -> Option<GridPos> = |k: int| none_o;
    let mut k: usize = 0;
    let mut result: Option<NpcAction> = None;
    while k < rs.len() && result.is_none()
        invariant
            k <= rs@.len(),
            rs@ == bp.behavior.reactions@,
            ctx.map == c0.map,
            ctx.content == c0.content,
            ctx.player == c0.player,
            *ctx.entities == *c0.entities,
            *final(ctx.entities) == *final(old(ctx).entities),
            *final(ctx.rng) == *final(old(ctx).rng),
            c0.map.wf(),
            c0.entities.wf(),
            all_oracles_ok(c0.map, c0.entities, actor, pos_or_origin(c0.entities, actor), os),
            forall|os2: spec_fn(int) -> spec_fn(GridPos) -> Option<GridPos>|
                #[trigger] agree_below(os2, os, k as int) ==> spec_decide_from(
                    c0.map,
                    c0.entities,
                    c0.content,
                    c0.player,
                    actor,
                    rs@,
                    0,
                    brain_of(c0.entities, actor),
                    *c0.rng,
                    constraints,
                    clock,
                    os2,
                ) == match result {
                    Some(a) => (a, brain, *ctx.rng),
                    None => spec_decide_from(
                        c0.map,
                        c0.entities,
                        c0.content,
                        c0.player,
                        actor,
                        rs@,
                        k as int,
                        brain,
                        *ctx.rng,
                        constraints,
                        clock,
                        os2,
                    ),
                },
        decreases rs@.len() - k,
    {
        let ghost seed_k = *ctx.rng;
        let ghost brain_k = brain;
        let ghost os_old = os;
        let (r, b, o) = react(ctx, actor, &rs[k], brain, constraints, clock);
        proof {
            os = |j: int| if j == k as int { o@ } else { os_old(j) };
            assert forall|os2: spec_fn(int) -> spec_fn(GridPos) -> Option<GridPos>|
                #[trigger] agree_below(os2, os, (k + 1) as int) implies spec_decide_from(
                    c0.map,
                    c0.entities,
                    c0.content,
                    c0.player,
                    actor,
                    rs@,
                    0,
                    brain_of(c0.entities, actor),
                    *c0.rng,
                    constraints,
                    clock,
                    os2,
                ) == match r {
                    Some(a) => (a, b, *ctx.rng),
                    None => spec_decide_from(
                        c0.map,
                        c0.entities,
                        c0.content,
                        c0.player,
                        actor,
                        rs@,
                        (k + 1) as int,
                        b,
                        *ctx.rng,
                        constraints,
                        clock,
                        os2,
                    ),
                } by {
                assert(agree_below(os2, os_old, k as int)) by {
                    assert forall|j: int| #![trigger os2(j)] 0 <= j < k as int implies os2(j) == os_old(j) by {
                        assert(os2(j) == os(j));
                    }
                }
                assert(os2(k as int) == o@);
            }
            assert forall|j: int| #![trigger os(j)] oracle_ok(c0.map, c0.entities, actor, pos_or_origin(c0.entities, actor), os(j)) by {
                if j == k as int {
                } else {
                    assert(oracle_ok(c0.map, c0.entities, actor, pos_or_origin(c0.entities, actor), os_old(j)));
                }
            }
        }
        brain = b;
        result = r;
        k = k + 1;
    }
    if i < ctx.entities.npc_brain.len() {
        ctx.entities.npc_brain.set(i, brain);
    }
    proof {
        assert(agree_below(os, os, k as int));
    }
    match result {
        Some(a) => a,
        None => NpcAction::Idle,
    }
}

} // verus!
