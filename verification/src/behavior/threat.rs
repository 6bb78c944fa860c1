//! Threat detection for flee reactions and encounter triggers.

use vstd::prelude::*;

use crate::content::{ContentPack, EncounterTriggerDef, HostileTriggerDef, Relation};
use crate::entity::{EntityArena, EntityId, GridPos};
use crate::math::{chebyshev, clamp_i32, spec_chebyshev};
use super::ctx::{relation_player, spec_hostile_to_player, BehaviorCtx};
use super::relation::{blueprint_of, spec_blueprint_for, spec_relation, BlueprintRelationResolver, RelationResolver};

verus! {

/// Chebyshev distance as the behavior layer measures it (saturated at `i32::MAX`).
pub open spec fn cheb(a: GridPos, b: GridPos) -> int {
    clamp_i32(spec_chebyshev(a, b))
}

/// The relation is neither allied nor friendly.
pub open spec fn spec_non_allied(rel: Relation) -> bool {
    !(rel == Relation::Allied || rel == Relation::Friendly)
}

/// Slot `j` holds a live non-allied actor other than `actor`, within `r` of `apos`.
pub open spec fn threat_at(
    content: &ContentPack,
    entities: &EntityArena,
    player: EntityId,
    actor: EntityId,
    apos: GridPos,
    r: int,
    j: int,
) -> bool {
    &&& entities.alive@[j]
    &&& j != actor.0
    &&& spec_non_allied(spec_relation(content, entities, player, actor, EntityId(j as u32)))
    &&& entities.position@[j] matches Some(p) && cheb(apos, p) <= r
}

/// Nearest threat among the first `n` slots as `(slot, position, distance)`; the lowest
/// slot wins ties.
pub open spec fn nearest_threat_upto(
    content: &ContentPack,
    entities: &EntityArena,
    player: EntityId,
    actor: EntityId,
    apos: GridPos,
    r: int,
    n: int,
) -> Option<(int, GridPos, int)>
    decreases n,
{
    if n <= 0 {
        None
    } else {
        let prev = nearest_threat_upto(content, entities, player, actor, apos, r, n - 1);
        if threat_at(content, entities, player, actor, apos, r, n - 1) {
            let p = entities.position@[n - 1].unwrap();
            let d = cheb(apos, p);
            match prev {
                Some(b) => if d < b.2 {
                    Some((n - 1, p, d))
                } else {
                    prev
                },
                None => Some((n - 1, p, d)),
            }
        } else {
            prev
        }
    }
}

/// Nearest non-allied actor within Chebyshev `range` of `actor`, with its position.
pub open spec fn spec_nearest_threat(
    content: &ContentPack,
    entities: &EntityArena,
    player: Option<EntityId>,
    actor: EntityId,
    range: u16,
) -> Option<(EntityId, GridPos)> {
    match entities.spec_pos(actor) {
        None => None,
        Some(apos) => match nearest_threat_upto(
            content,
            entities,
            relation_player(player),
            actor,
            apos,
            range as int,
            entities.len(),
        ) {
            Some(b) => Some((EntityId(b.0 as u32), b.1)),
            None => None,
        },
    }
}

/// What the nearest-threat search finds is a threat, and no threat is nearer.
pub proof fn lemma_nearest_threat_upto(
    content: &ContentPack,
    entities: &EntityArena,
    player: EntityId,
    actor: EntityId,
    apos: GridPos,
    r: int,
    n: int,
)
    ensures
        nearest_threat_upto(content, entities, player, actor, apos, r, n) matches Some(b) ==> {
            &&& 0 <= b.0 < n
            &&& threat_at(content, entities, player, actor, apos, r, b.0)
            &&& entities.position@[b.0] == Some(b.1)
            &&& b.2 == cheb(apos, b.1)
            &&& forall|j: int|
                0 <= j < n && #[trigger] threat_at(content, entities, player, actor, apos, r, j)
                    ==> b.2 <= cheb(apos, entities.position@[j].unwrap())
        },
        nearest_threat_upto(content, entities, player, actor, apos, r, n) is None ==> forall|j: int|
            0 <= j < n ==> !#[trigger] threat_at(content, entities, player, actor, apos, r, j),
    decreases n,
{
    if n > 0 {
        lemma_nearest_threat_upto(content, entities, player, actor, apos, r, n - 1);
    }
}

/// The nearest threat found for `actor` is a threat within range, and every other threat
/// within range is at least as far away.
pub proof fn lemma_nearest_threat_is_nearest(
    content: &ContentPack,
    entities: &EntityArena,
    player: Option<EntityId>,
    actor: EntityId,
    range: u16,
)
    requires
        entities.wf(),
    ensures
        spec_nearest_threat(content, entities, player, actor, range) matches Some(t) ==> {
            let apos = entities.spec_pos(actor).unwrap();
            &&& threat_at(content, entities, relation_player(player), actor, apos, range as int, t.0.0 as int)
            &&& entities.spec_pos(t.0) == Some(t.1)
            &&& forall|j: int|
                0 <= j < entities.len() && #[trigger] threat_at(
                    content,
                    entities,
                    relation_player(player),
                    actor,
                    apos,
                    range as int,
                    j,
                ) ==> cheb(apos, t.1) <= cheb(apos, entities.position@[j].unwrap())
        },
{
    if let Some(apos) = entities.spec_pos(actor) {
        lemma_nearest_threat_upto(content, entities, relation_player(player), actor, apos, range as int, entities.len());
    }
}

impl<'a> BehaviorCtx<'a> {
    pub open spec fn spec_threat(&self, actor: EntityId, range: u16) -> Option<(EntityId, GridPos)> {
        spec_nearest_threat(self.content, self.entities, self.player, actor, range)
    }

    pub open spec fn spec_should_start(&self, actor: EntityId) -> bool {
        spec_should_start_encounter(self.content, self.entities, self.player, actor)
    }

    pub open spec fn spec_trigger(&self, actor: EntityId, rule: EncounterTriggerDef) -> bool {
        spec_encounter_trigger(self.content, self.entities, self.player, actor, rule)
    }
}

/// Nearest non-allied actor within Chebyshev `range` of `actor`, if any.
pub fn nearest_non_allied_threat(ctx: &BehaviorCtx<'_>, actor: EntityId, range: u16) -> (r: Option<(EntityId, GridPos)>)
    requires
        ctx.entities.wf(),
    ensures
        r == ctx.spec_threat(actor, range),
{
    let actor_pos = match ctx.entities.pos(actor) {
        Some(p) => p,
        None => { return None; },
    };
    let r = range as i32;
    let ghost player = relation_player(ctx.player);
    let mut best: Option<(EntityId, GridPos, i32)> = None;
    let mut i: usize = 0;
    while i < ctx.entities.alive.len()
        invariant
            ctx.entities.wf(),
            i <= ctx.entities.len(),
            player == relation_player(ctx.player),
            r == range as int,
            ctx.entities.spec_pos(actor) == Some(actor_pos),
            best matches Some(b) ==> nearest_threat_upto(ctx.content, ctx.entities, player, actor, actor_pos, r as int, i as int)
                == Some((b.0.0 as int, b.1, b.2 as int)),
            best is None ==> nearest_threat_upto(ctx.content, ctx.entities, player, actor, actor_pos, r as int, i as int) is None,
        decreases ctx.entities.len() - i,
    {
        proof { lemma_nearest_threat_upto(ctx.content, ctx.entities, player, actor, actor_pos, r as int, i as int); }
        if ctx.entities.alive[i] && i as u32 != actor.0 {
            let other = EntityId(i as u32);
            if is_non_allied(ctx, actor, other) {
                match ctx.entities.pos(other) {
                    Some(op) => {
                        let d = chebyshev(actor_pos, op);
                        if d <= r {
                            let better = match best {
                                Some(b) => d < b.2,
                                None => true,
                            };
                            if better {
                                best = Some((other, op, d));
                            }
                        }
                    },
                    None => {},
                }
            }
        }
        i = i + 1;
    }
    match best {
        Some(b) => Some((b.0, b.1)),
        None => None,
    }
}

/// The relation of `actor` toward `other` is neither allied nor friendly.
pub fn is_non_allied(ctx: &BehaviorCtx<'_>, actor: EntityId, other: EntityId) -> (b: bool)
    ensures
        b == spec_non_allied(ctx.spec_rel(actor, other)),
{
    let rel = ctx.relation(actor, other);
    !(matches!(rel, Relation::Allied) || matches!(rel, Relation::Friendly))
}

/// The player is within the rule's Chebyshev range of `actor`.
pub open spec fn spec_rule_met(rule: EncounterTriggerDef, pp: GridPos, ep: GridPos) -> bool {
    match rule {
        HostileTriggerDef::PlayerWithinChebyshev { range } => cheb(pp, ep) <= range as int,
    }
}

/// `actor` is a hostile non-player actor and `rule` holds between it and the player.
pub open spec fn spec_encounter_trigger(
    content: &ContentPack,
    entities: &EntityArena,
    player: Option<EntityId>,
    actor: EntityId,
    rule: EncounterTriggerDef,
) -> bool {
    match player {
        None => false,
        Some(p) => {
            &&& actor != p
            &&& spec_hostile_to_player(content, entities, player, actor)
            &&& entities.spec_pos(p) matches Some(pp)
            &&& entities.spec_pos(actor) matches Some(ep)
            &&& spec_rule_met(rule, pp, ep)
        },
    }
}

pub fn evaluate_encounter_trigger(ctx: &BehaviorCtx<'_>, actor: EntityId, rule: EncounterTriggerDef) -> (b: bool)
    ensures
        b == ctx.spec_trigger(actor, rule),
{
    let player = match ctx.player_id() {
        Some(p) => p,
        None => { return false; },
    };
    if actor.0 == player.0 {
        return false;
    }
    if !ctx.is_hostile_to_player(actor) {
        return false;
    }
    let pp = match ctx.entities.pos(player) {
        Some(p) => p,
        None => { return false; },
    };
    let ep = match ctx.entities.pos(actor) {
        Some(p) => p,
        None => { return false; },
    };
    match rule {
        HostileTriggerDef::PlayerWithinChebyshev { range } => chebyshev(pp, ep) <= range as i32,
    }
}

/// `actor`'s blueprint has an encounter trigger and it holds.
pub open spec fn spec_should_start_encounter(
    content: &ContentPack,
    entities: &EntityArena,
    player: Option<EntityId>,
    actor: EntityId,
) -> bool {
    match spec_blueprint_for(content, entities, actor) {
        Some(bp) => match bp.behavior.hostile_trigger {
            Some(t) => spec_encounter_trigger(content, entities, player, actor, t),
            None => false,
        },
        None => false,
    }
}

/// Whether `actor` should start a combat encounter with the player.
pub fn should_start_encounter(ctx: &BehaviorCtx<'_>, actor: EntityId) -> (b: bool)
    ensures
        b == ctx.spec_should_start(actor),
{
    let bp = match ctx.blueprint_for(actor) {
        Some(bp) => bp,
        None => { return false; },
    };
    match bp.behavior.hostile_trigger {
        Some(t) => evaluate_encounter_trigger(ctx, actor, t),
        None => false,
    }
}

/// `actor` is alive, hostile to the player, and its blueprint's trigger holds.
pub open spec fn spec_actively_hostile(
    entities: &EntityArena,
    content: &ContentPack,
    player: Option<EntityId>,
    actor: EntityId,
) -> bool {
    match player {
        None => false,
        Some(p) => {
            &&& entities.spec_is_alive(actor)
            &&& spec_relation(content, entities, p, p, actor) == Relation::Hostile
            &&& spec_blueprint_for(content, entities, actor) matches Some(bp)
            &&& bp.behavior.hostile_trigger matches Some(t)
            &&& entities.spec_pos(p) matches Some(pp)
            &&& entities.spec_pos(actor) matches Some(ep)
            &&& spec_rule_met(t, pp, ep)
        },
    }
}

/// Read-only check for combat AI: hostile and in aggro range.
pub fn is_actively_hostile_to_player_with(
    entities: &EntityArena,
    content: &ContentPack,
    player: Option<EntityId>,
    actor: EntityId,
) -> (b: bool)
    ensures
        b == spec_actively_hostile(entities, content, player, actor),
{
    let player = match player {
        Some(p) => p,
        None => { return false; },
    };
    if !entities.is_alive(actor) {
        return false;
    }
    let resolver = BlueprintRelationResolver { player, content, entities };
    if !matches!(resolver.relation(player, actor), Relation::Hostile) {
        return false;
    }
    let bp = match blueprint_of(content, entities, actor) {
        Some(bp) => bp,
        None => { return false; },
    };
    let trigger = match bp.behavior.hostile_trigger {
        Some(t) => t,
        None => { return false; },
    };
    let pp = match entities.pos(player) {
        Some(p) => p,
        None => { return false; },
    };
    let ep = match entities.pos(actor) {
        Some(p) => p,
        None => { return false; },
    };
    match trigger {
        HostileTriggerDef::PlayerWithinChebyshev { range } => chebyshev(pp, ep) <= range as i32,
    }
}

} // verus!
