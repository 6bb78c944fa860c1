//! Evaluation of the reaction list: fleeing, fighting, investigating and routines.

use vstd::prelude::*;

use crate::combat::{move_cost_units, spec_can_act, spec_move_cost, AttackStyle, CombatState, ATTACK_COST_UNITS};
use crate::content::{ContentPack, ReactionDef};
use crate::entity::{ActiveReaction, EntityArena, EntityId, ForcedReaction, GridPos, NpcBrainState};
use crate::math::{chebyshev, clamp_i32, manhattan, spec_manhattan, spec_signum};
use crate::world::MapGrid;
use super::action::NpcAction;
use super::constraints::ActionConstraints;
use super::ctx::BehaviorCtx;
use super::navigation::{shortest_first_step, delta, lemma_nav_answer_exists, nav_answer, nav_answer_ok, spec_delta};
use super::threat::{cheb, nearest_non_allied_threat};

verus! {

/// Exploration ticks to idle after reaching flee clearance before routines resume.
pub const FLEE_SETTLE_TICKS: u16 = 36;
/// Flee clearance of an actor whose blueprint has no flee reaction.
pub const DEFAULT_FLEE_CLEARANCE: i32 = 16;

/// How far (Chebyshev) to run: twice the trigger range.
pub fn flee_clearance_chebyshev(trigger_range: u16) -> (c: i32)
    ensures
        c == 2 * trigger_range,
{
    trigger_range as i32 * 2
}

/// `e` with the sign of `v` (0 when `v` is 0).
pub open spec fn signed_by(v: int, e: int) -> int {
    if v > 0 {
        e
    } else if v < 0 {
        -e
    } else {
        0
    }
}

/// Cell `clearance` away from `threat` straight along the direction from the threat to
/// `from` (coordinates saturate at the `i32` range); one cell east when standing on the
/// threat; `from` itself when already clear.
pub open spec fn spec_flee_goal_cell(from: GridPos, threat: GridPos, clearance: int) -> GridPos {
    let dx = spec_signum(from.x - threat.x);
    let dy = spec_signum(from.y - threat.y);
    if dx == 0 && dy == 0 {
        GridPos { x: clamp_i32(from.x + 1) as i32, y: from.y }
    } else if cheb(from, threat) >= clearance {
        from
    } else {
        let extra = clearance - cheb(from, threat);
        GridPos {
            x: clamp_i32(from.x + signed_by(from.x - threat.x, extra)) as i32,
            y: clamp_i32(from.y + signed_by(from.y - threat.y, extra)) as i32,
        }
    }
}

fn sat_i32(v: i64) -> (r: i32)
    ensures
        r == clamp_i32(v as int),
{
    if v > i32::MAX as i64 {
        i32::MAX
    } else if v < i32::MIN as i64 {
        i32::MIN
    } else {
        v as i32
    }
}

pub fn flee_goal_cell(from: GridPos, threat: GridPos, clearance: i32) -> (g: GridPos)
    ensures
        g == spec_flee_goal_cell(from, threat, clearance as int),
{
    let ddx: i64 = from.x as i64 - threat.x as i64;
    let ddy: i64 = from.y as i64 - threat.y as i64;
    let dx: i64 = if ddx > 0 { 1 } else if ddx < 0 { -1 } else { 0 };
    let dy: i64 = if ddy > 0 { 1 } else if ddy < 0 { -1 } else { 0 };
    if dx == 0 && dy == 0 {
        return GridPos { x: sat_i32(from.x as i64 + 1), y: from.y };
    }
    let current = chebyshev(from, threat);
    if current >= clearance {
        return from;
    }
    let extra: i64 = clearance as i64 - current as i64;
    let ox: i64 = if dx > 0 { extra } else if dx < 0 { -extra } else { 0 };
    let oy: i64 = if dy > 0 { extra } else if dy < 0 { -extra } else { 0 };
    GridPos { x: sat_i32(from.x as i64 + ox), y: sat_i32(from.y as i64 + oy) }
}

/// A flee goal that needs no saturation is at least `clearance` away from the threat
/// (or is `from` itself, already that far).
pub proof fn lemma_flee_goal_reaches_clearance(from: GridPos, threat: GridPos, clearance: int)
    requires
        from != threat,
        clearance <= i32::MAX,
        ({
            let extra = clearance - cheb(from, threat);
            let gx = from.x + signed_by(from.x - threat.x, extra);
            let gy = from.y + signed_by(from.y - threat.y, extra);
            i32::MIN <= gx <= i32::MAX && i32::MIN <= gy <= i32::MAX
        }),
    ensures
        cheb(spec_flee_goal_cell(from, threat, clearance), threat) >= clearance
            || spec_flee_goal_cell(from, threat, clearance) == from,
{
    let c = cheb(from, threat);
    if c < clearance {
        let ax = from.x - threat.x;
        let ay = from.y - threat.y;
        let g = spec_flee_goal_cell(from, threat, clearance);
        assert(c == crate::math::spec_chebyshev(from, threat));
        if crate::math::abs_int(ax) >= crate::math::abs_int(ay) {
            assert(crate::math::abs_int(g.x - threat.x) == crate::math::abs_int(ax) + clearance - c);
        } else {
            assert(crate::math::abs_int(g.y - threat.y) == crate::math::abs_int(ay) + clearance - c);
        }
    }
}

/// The flee goal clamped onto the map.
pub open spec fn spec_clamp_flee_goal(map: &MapGrid, goal: GridPos) -> GridPos {
    let max_x = if map.width >= 1 { map.width - 1 } else { 0 };
    let max_y = if map.height >= 1 { map.height - 1 } else { 0 };
    GridPos {
        x: (if goal.x < 0 { 0 } else if goal.x > max_x { max_x } else { goal.x as int }) as i32,
        y: (if goal.y < 0 { 0 } else if goal.y > max_y { max_y } else { goal.y as int }) as i32,
    }
}

pub fn clamp_flee_goal(map: &MapGrid, goal: GridPos) -> (g: GridPos)
    ensures
        g == spec_clamp_flee_goal(map, goal),
{
    let max_x: i32 = if map.width >= 1 { (map.width - 1) as i32 } else { 0 };
    let max_y: i32 = if map.height >= 1 { (map.height - 1) as i32 } else { 0 };
    GridPos {
        x: if goal.x < 0 { 0 } else if goal.x > max_x { max_x } else { goal.x },
        y: if goal.y < 0 { 0 } else if goal.y > max_y { max_y } else { goal.y },
    }
}

/// The neighbour `k` of `from` if `actor` may step there.
pub open spec fn greedy_cand(map: &MapGrid, entities: &EntityArena, actor: EntityId, from: GridPos, k: int) -> Option<GridPos> {
    let x = from.x + spec_delta(k).0;
    let y = from.y + spec_delta(k).1;
    let c = GridPos { x: x as i32, y: y as i32 };
    if map.spec_in_bounds(x, y) && entities.spec_can_move_to(map.spec_blocks_movement(x, y), c, Some(actor)) {
        Some(c)
    } else {
        None
    }
}

/// Among the first `n` neighbours, the first one farthest from `threat` that is strictly
/// farther than `from`, with its distance.
pub open spec fn greedy_best_upto(
    map: &MapGrid,
    entities: &EntityArena,
    actor: EntityId,
    from: GridPos,
    threat: GridPos,
    n: int,
) -> Option<(GridPos, int)>
    decreases n,
{
    if n <= 0 {
        None
    } else {
        let prev = greedy_best_upto(map, entities, actor, from, threat, n - 1);
        match greedy_cand(map, entities, actor, from, n - 1) {
            Some(c) => {
                let d = cheb(c, threat);
                if d <= cheb(from, threat) {
                    prev
                } else {
                    match prev {
                        Some(b) => if d > b.1 {
                            Some((c, d))
                        } else {
                            prev
                        },
                        None => Some((c, d)),
                    }
                }
            },
            None => prev,
        }
    }
}

/// One step to a free neighbour farther from the threat (the farthest, first in scan
/// order), used at walls and map edges.
pub open spec fn spec_greedy_flee(map: &MapGrid, entities: &EntityArena, actor: EntityId, from: GridPos, threat: GridPos) -> Option<GridPos> {
    match greedy_best_upto(map, entities, actor, from, threat, 8) {
        Some(b) => Some(b.0),
        None => None,
    }
}

fn greedy_flee_step(map: &MapGrid, entities: &EntityArena, actor: EntityId, from: GridPos, threat: GridPos) -> (r: Option<GridPos>)
    requires
        map.wf(),
        entities.wf(),
    ensures
        r == spec_greedy_flee(map, entities, actor, from, threat),
{
    let current = chebyshev(from, threat);
    let mut best: Option<(GridPos, i32)> = None;
    let mut k: usize = 0;
    while k < 8
        invariant
            k <= 8,
            map.wf(),
            entities.wf(),
            current == cheb(from, threat),
            best matches Some(b) ==> greedy_best_upto(map, entities, actor, from, threat, k as int) == Some(
                (b.0, b.1 as int),
            ),
            best is None ==> greedy_best_upto(map, entities, actor, from, threat, k as int) is None,
        decreases 8 - k,
    {
        let (dx, dy) = delta(k);
        let nx: i64 = from.x as i64 + dx as i64;
        let ny: i64 = from.y as i64 + dy as i64;
        if 0 <= nx && nx < map.width as i64 && 0 <= ny && ny < map.height as i64 {
            let c = GridPos { x: nx as i32, y: ny as i32 };
            let blocked = map.blocks_movement(c.x, c.y);
            if entities.can_move_to(blocked, c, Some(actor)) {
                let d = chebyshev(c, threat);
                if d > current {
                    let better = match best {
                        Some(b) => d > b.1,
                        None => true,
                    };
                    if better {
                        best = Some((c, d));
                    }
                }
            }
        }
        k = k + 1;
    }
    match best {
        Some(b) => Some(b.0),
        None => None,
    }
}

/// Of the path step and the greedy step, those strictly farther from the threat than
/// `current`; the farther one wins, the greedy one on a tie.
pub open spec fn flee_pick(path: Option<GridPos>, greedy: Option<GridPos>, threat: GridPos, current: int) -> Option<GridPos> {
    let p = match path {
        Some(c) => if cheb(c, threat) > current { Some(c) } else { None },
        None => None,
    };
    let g = match greedy {
        Some(c) => if cheb(c, threat) > current { Some(c) } else { None },
        None => None,
    };
    match (p, g) {
        (Some(a), Some(b)) => if cheb(a, threat) > cheb(b, threat) { Some(a) } else { Some(b) },
        (Some(a), None) => Some(a),
        (None, Some(b)) => Some(b),
        (None, None) => None,
    }
}

/// AP units left to the current actor of `clock` (0 without one).
pub open spec fn clock_ap(clock: &CombatState) -> int {
    match clock@.current_ap_units() {
        Some(u) => u as int,
        None => 0,
    }
}

/// Where a flight from `threat` heads: the flee goal clamped onto the map.
pub open spec fn spec_flee_goal(map: &MapGrid, from: GridPos, threat: GridPos, clearance: int) -> GridPos {
    spec_clamp_flee_goal(map, spec_flee_goal_cell(from, threat, clearance))
}

/// A flee step from `threat`, given the navigation answer `nav` toward the flee goal.
pub open spec fn spec_flee_from(
    map: &MapGrid,
    entities: &EntityArena,
    actor: EntityId,
    from: GridPos,
    threat: GridPos,
    constraints: ActionConstraints,
    clock: Option<&CombatState>,
    nav: Option<GridPos>,
) -> Option<NpcAction> {
    match flee_pick(nav, spec_greedy_flee(map, entities, actor, from, threat), threat, cheb(from, threat)) {
        None => None,
        Some(next) => if constraints.phase is Turn {
            match clock {
                None => None,
                Some(c) => if !constraints.spec_is_current_turn(c) {
                    None
                } else {
                    match spec_move_cost(from, next) {
                        None => None,
                        Some(cost) => if clock_ap(c) < cost {
                            Some(NpcAction::Pass)
                        } else {
                            Some(NpcAction::Step(next))
                        },
                    }
                }
            }
        } else {
            Some(NpcAction::Step(next))
        },
    }
}

fn current_ap(clock: &CombatState) -> (ap: u16)
    ensures
        ap == clock_ap(clock),
{
    match clock.current_ap_units() {
        Some(u) => u,
        None => 0,
    }
}

fn flee_from(
    map: &MapGrid,
    entities: &EntityArena,
    actor: EntityId,
    actor_pos: GridPos,
    threat_pos: GridPos,
    clearance: i32,
    constraints: ActionConstraints,
    clock: Option<&CombatState>,
) -> (res: (Option<NpcAction>, Ghost<Option<GridPos>>))
    requires
        map.wf(),
        entities.wf(),
    ensures
        nav_answer_ok(map, entities, actor, actor_pos, spec_flee_goal(map, actor_pos, threat_pos, clearance as int), res.1@),
        res.0 == spec_flee_from(map, entities, actor, actor_pos, threat_pos, constraints, clock, res.1@),
{
    let current = chebyshev(actor_pos, threat_pos);
    let flee_goal = clamp_flee_goal(map, flee_goal_cell(actor_pos, threat_pos, clearance));
    let path_step = shortest_first_step(map, entities, actor, actor_pos, flee_goal);
    let greedy_step = greedy_flee_step(map, entities, actor, actor_pos, threat_pos);
    let p = match path_step {
        Some(c) => if chebyshev(c, threat_pos) > current { Some(c) } else { None },
        None => None,
    };
    let g = match greedy_step {
        Some(c) => if chebyshev(c, threat_pos) > current { Some(c) } else { None },
        None => None,
    };
    let next = match (p, g) {
        (Some(a), Some(b)) => if chebyshev(a, threat_pos) > chebyshev(b, threat_pos) { a } else { b },
        (Some(a), None) => a,
        (None, Some(b)) => b,
        (None, None) => { return (None, Ghost(path_step)); },
    };
    if constraints.in_turn_session() {
        let clock = match clock {
            Some(c) => c,
            None => { return (None, Ghost(path_step)); },
        };
        if !constraints.is_current_turn(clock) {
            return (None, Ghost(path_step));
        }
        let cost = match move_cost_units(actor_pos, next) {
            Some(c) => c,
            None => { return (None, Ghost(path_step)); },
        };
        if current_ap(clock) < cost {
            return (Some(NpcAction::Pass), Ghost(path_step));
        }
    }
    (Some(NpcAction::Step(next)), Ghost(path_step))
}

/// Live participants other than `actor` that stand somewhere.
pub open spec fn fight_candidate(entities: &EntityArena, actor: EntityId, id: EntityId) -> bool {
    id != actor && spec_can_act(entities, id) && entities.spec_pos(id) is Some
}

/// Among the first `n` initiative slots, the first candidate nearest (Manhattan) to
/// `from`, with its distance.
pub open spec fn fight_closest_upto(entities: &EntityArena, init: Seq<EntityId>, actor: EntityId, from: GridPos, n: int) -> Option<(EntityId, int)>
    decreases n,
{
    if n <= 0 {
        None
    } else {
        let prev = fight_closest_upto(entities, init, actor, from, n - 1);
        let t = init[n - 1];
        if fight_candidate(entities, actor, t) {
            let d = clamp_i32(spec_manhattan(from, entities.spec_pos(t).unwrap()));
            match prev {
                Some(b) => if d < b.1 {
                    Some((t, d))
                } else {
                    prev
                },
                None => Some((t, d)),
            }
        } else {
            prev
        }
    }
}

/// Position of the opponent `actor` would fight.
pub open spec fn fight_goal(entities: &EntityArena, clock: &CombatState, actor: EntityId, from: GridPos) -> Option<GridPos> {
    match fight_closest_upto(entities, clock.initiative@, actor, from, clock.initiative@.len() as int) {
        Some(b) => entities.spec_pos(b.0),
        None => None,
    }
}

/// Attack the nearest adjacent opponent, else step toward it (navigation answered `nav`),
/// passing when AP is short.
pub open spec fn spec_fight_nearest(
    entities: &EntityArena,
    clock: &CombatState,
    actor: EntityId,
    from: GridPos,
    nav: Option<GridPos>,
) -> Option<NpcAction> {
    match fight_closest_upto(entities, clock.initiative@, actor, from, clock.initiative@.len() as int) {
        None => None,
        Some(best) => match entities.spec_pos(best.0) {
            None => None,
            Some(tpos) => if cheb(from, tpos) == 1 {
                if clock_ap(clock) >= ATTACK_COST_UNITS {
                    Some(NpcAction::Attack { target: best.0, style: AttackStyle::Unarmed })
                } else {
                    Some(NpcAction::Pass)
                }
            } else {
                match nav {
                    None => None,
                    Some(next) => match spec_move_cost(from, next) {
                        None => None,
                        Some(cost) => if clock_ap(clock) < cost {
                            Some(NpcAction::Pass)
                        } else {
                            Some(NpcAction::Step(next))
                        },
                    },
                }
            },
        },
    }
}

/// Attack style of an NPC (natural weapons for now).
pub fn attack_style_for_actor(ctx: &BehaviorCtx<'_>, actor: EntityId) -> (s: AttackStyle)
    ensures
        s == AttackStyle::Unarmed,
{
    AttackStyle::Unarmed
}

fn fight_nearest(map: &MapGrid, entities: &EntityArena, state: &CombatState, actor: EntityId, actor_pos: GridPos) -> (res: (
    Option<NpcAction>,
    Ghost<Option<GridPos>>,
))
    requires
        map.wf(),
        entities.wf(),
    ensures
        fight_goal(entities, state, actor, actor_pos) matches Some(g) ==> nav_answer_ok(
            map,
            entities,
            actor,
            actor_pos,
            g,
            res.1@,
        ),
        res.0 == spec_fight_nearest(entities, state, actor, actor_pos, res.1@),
{
    let ap = current_ap(state);
    let style = AttackStyle::Unarmed;
    let mut closest: Option<(EntityId, i32)> = None;
    let mut i: usize = 0;
    while i < state.initiative.len()
        invariant
            i <= state.initiative@.len(),
            closest matches Some(b) ==> fight_closest_upto(entities, state.initiative@, actor, actor_pos, i as int)
                == Some((b.0, b.1 as int)),
            closest is None ==> fight_closest_upto(entities, state.initiative@, actor, actor_pos, i as int) is None,
        decreases state.initiative@.len() - i,
    {
        let target = state.initiative[i];
        if target.0 != actor.0 {
            let can_act = entities.is_alive(target) && match entities.stats(target) {
                Some(s) => s.hp > 0,
                None => false,
            };
            if can_act {
                match entities.pos(target) {
                    Some(p) => {
                        let d = manhattan(actor_pos, p);
                        let better = match closest {
                            Some(b) => d < b.1,
                            None => true,
                        };
                        if better {
                            closest = Some((target, d));
                        }
                    },
                    None => {},
                }
            }
        }
        i = i + 1;
    }
    let target_id = match closest {
        Some(b) => b.0,
        None => { return (None, Ghost(None)); },
    };
    let target_pos = match entities.pos(target_id) {
        Some(p) => p,
        None => { return (None, Ghost(None)); },
    };
    if chebyshev(actor_pos, target_pos) == 1 {
        let ghost w = nav_answer(map, entities, actor, actor_pos, target_pos);
        proof { lemma_nav_answer_exists(map, entities, actor, actor_pos, target_pos); }
        if ap >= ATTACK_COST_UNITS {
            return (Some(NpcAction::Attack { target: target_id, style }), Ghost(w));
        }
        return (Some(NpcAction::Pass), Ghost(w));
    }
    let nav = shortest_first_step(map, entities, actor, actor_pos, target_pos);
    let next = match nav {
        Some(n) => n,
        None => { return (None, Ghost(nav)); },
    };
    let step_cost = match move_cost_units(actor_pos, next) {
        Some(c) => c,
        None => { return (None, Ghost(nav)); },
    };
    if ap < step_cost {
        return (Some(NpcAction::Pass), Ghost(nav));
    }
    (Some(NpcAction::Step(next)), Ghost(nav))
}


/// A brain that stopped fleeing and settles before routines resume.
pub open spec fn settled(b: NpcBrainState) -> NpcBrainState {
    NpcBrainState { alarmed_ticks: FLEE_SETTLE_TICKS, active: ActiveReaction::Inactive, ..b }
}

/// Navigation's answer from `from` for every goal (the first step of a shortest path, or
/// none).
pub open spec fn oracle_ok(
    map: &MapGrid,
    entities: &EntityArena,
    actor: EntityId,
    from: GridPos,
    o: spec_fn(GridPos) -> Option<GridPos>,
) -> bool {
    forall|g: GridPos| #![trigger o(g)] nav_answer_ok(map, entities, actor, from, g, o(g))
}

/// Position of `actor` (the origin when it has none).
pub open spec fn pos_or_origin(entities: &EntityArena, actor: EntityId) -> GridPos {
    match entities.spec_pos(actor) {
        Some(p) => p,
        None => GridPos { x: 0, y: 0 },
    }
}

/// Brain of `actor` (the default one when the slot does not exist).
pub open spec fn brain_of(entities: &EntityArena, actor: EntityId) -> NpcBrainState {
    if (actor.0 as int) < entities.npc_brain@.len() {
        entities.npc_brain@[actor.0 as int]
    } else {
        NpcBrainState::spec_default()
    }
}

/// Brains after `actor`'s brain became `b`.
pub open spec fn brains_with(entities: &EntityArena, actor: EntityId, b: NpcBrainState) -> Seq<NpcBrainState> {
    if (actor.0 as int) < entities.npc_brain@.len() {
        entities.npc_brain@.update(actor.0 as int, b)
    } else {
        entities.npc_brain@
    }
}

/// Where a fleeing actor believes the threat is: the nearest threat within the trigger
/// range (within the clearance once fleeing), else, while fleeing, where it was last seen.
pub open spec fn spec_flee_threat_pos(
    content: &ContentPack,
    entities: &EntityArena,
    player: Option<EntityId>,
    actor: EntityId,
    brain: NpcBrainState,
    range: u16,
    clearance: int,
    fleeing: bool,
) -> Option<GridPos> {
    let search: u16 = if fleeing {
        (if clearance < u16::MAX { clearance } else { u16::MAX as int }) as u16
    } else {
        range
    };
    match super::threat::spec_nearest_threat(content, entities, player, actor, search) {
        Some(t) => Some(t.1),
        None => if fleeing {
            match brain.active {
                ActiveReaction::Flee { from } => Some(from),
                _ => None,
            }
        } else {
            None
        },
    }
}

/// Distance to the nearest non-allied actor anywhere, or to `fallback` without one.
pub open spec fn spec_effective_dist(
    content: &ContentPack,
    entities: &EntityArena,
    player: Option<EntityId>,
    actor: EntityId,
    from: GridPos,
    fallback: GridPos,
) -> int {
    match super::threat::spec_nearest_threat(content, entities, player, actor, u16::MAX) {
        Some(t) => cheb(from, t.1),
        None => cheb(from, fallback),
    }
}

fn flee_threat_pos(
    ctx: &BehaviorCtx<'_>,
    actor: EntityId,
    brain: &NpcBrainState,
    trigger_range: u16,
    clearance: i32,
    fleeing: bool,
) -> (r: Option<GridPos>)
    requires
        ctx.entities.wf(),
        clearance >= 0,
    ensures
        r == ctx.spec_flee_threat(actor, *brain, trigger_range, clearance as int, fleeing),
{
    let search_range: u16 = if fleeing {
        if clearance < u16::MAX as i32 { clearance as u16 } else { u16::MAX }
    } else {
        trigger_range
    };
    match nearest_non_allied_threat(ctx, actor, search_range) {
        Some(t) => { return Some(t.1); },
        None => {},
    }
    if fleeing {
        if let ActiveReaction::Flee { from } = brain.active {
            return Some(from);
        }
    }
    None
}

fn effective_threat_distance(ctx: &BehaviorCtx<'_>, actor: EntityId, actor_pos: GridPos, fallback_threat: GridPos) -> (d: i32)
    requires
        ctx.entities.wf(),
    ensures
        d == ctx.spec_eff_dist(actor, actor_pos, fallback_threat),
{
    match nearest_non_allied_threat(ctx, actor, u16::MAX) {
        Some(t) => chebyshev(actor_pos, t.1),
        None => chebyshev(actor_pos, fallback_threat),
    }
}

/// Slot `j` of `rs` is a flee reaction.
pub open spec fn flee_pred(rs: Seq<ReactionDef>) -> spec_fn(int) -> bool {
    |j: int| rs[j] is FleeFromThreat
}

/// Flee clearance of `actor`: from the first flee reaction of its blueprint, else the
/// default.
pub open spec fn spec_flee_clearance_for(content: &ContentPack, entities: &EntityArena, actor: EntityId) -> int {
    match super::relation::spec_blueprint_for(content, entities, actor) {
        Some(bp) => {
            let rs = bp.behavior.reactions@;
            match crate::search::first_match(rs.len() as int, flee_pred(rs)) {
                Some(j) => match rs[j] {
                    ReactionDef::FleeFromThreat { range } => 2 * range,
                    _ => DEFAULT_FLEE_CLEARANCE as int,
                },
                None => DEFAULT_FLEE_CLEARANCE as int,
            }
        },
        None => DEFAULT_FLEE_CLEARANCE as int,
    }
}

impl<'a> BehaviorCtx<'a> {
    pub open spec fn spec_flee_threat(&self, actor: EntityId, brain: NpcBrainState, range: u16, clearance: int, fleeing: bool) -> Option<GridPos> {
        spec_flee_threat_pos(self.content, self.entities, self.player, actor, brain, range, clearance, fleeing)
    }

    pub open spec fn spec_eff_dist(&self, actor: EntityId, from: GridPos, fallback: GridPos) -> int {
        spec_effective_dist(self.content, self.entities, self.player, actor, from, fallback)
    }

    pub open spec fn spec_clearance_for(&self, actor: EntityId) -> int {
        spec_flee_clearance_for(self.content, self.entities, actor)
    }
}

fn flee_clearance_for_actor(ctx: &BehaviorCtx<'_>, actor: EntityId) -> (c: i32)
    ensures
        c == ctx.spec_clearance_for(actor),
{
    let bp = match ctx.blueprint_for(actor) {
        Some(bp) => bp,
        None => { return DEFAULT_FLEE_CLEARANCE; },
    };
    let rs = &bp.behavior.reactions;
    let ghost p = flee_pred(rs@);
    let mut i: usize = 0;
    while i < rs.len()
        invariant
            i <= rs@.len(),
            p == flee_pred(rs@),
            ctx.spec_bp(actor) == Some(*bp),
            rs@ == bp.behavior.reactions@,
            forall|j: int| 0 <= j < i ==> !#[trigger] p(j),
        decreases rs@.len() - i,
    {
        if let ReactionDef::FleeFromThreat { range } = &rs[i] {
            proof { crate::search::lemma_first_match_is(rs@.len() as int, p, i as int); }
            return flee_clearance_chebyshev(*range);
        }
        i = i + 1;
    }
    proof { crate::search::lemma_first_match_none(rs@.len() as int, p); }
    DEFAULT_FLEE_CLEARANCE
}

/// The routine's intent as an action: steps are leisurely; in a turn session a step the
/// current AP cannot pay for becomes a pass.
pub open spec fn routine_action_of(
    intent: super::exploration::ExplorationIntent,
    from: GridPos,
    constraints: ActionConstraints,
    clock: Option<&CombatState>,
) -> NpcAction {
    match intent {
        super::exploration::ExplorationIntent::Step(t) => if constraints.phase is Turn {
            if (spec_move_cost(from, t) matches Some(cost) && clock_ap(clock.unwrap()) >= cost) {
                NpcAction::RoamStep(t)
            } else {
                NpcAction::Pass
            }
        } else {
            NpcAction::RoamStep(t)
        },
        super::exploration::ExplorationIntent::Idle => NpcAction::Idle,
    }
}

/// One reaction of `actor` with brain `brain` and generator state `seed`, navigation
/// answering through `o`: the action (`None`: the reaction does not apply), the brain
/// afterwards and the generator state afterwards.
pub open spec fn spec_react(
    map: &MapGrid,
    entities: &EntityArena,
    content: &ContentPack,
    player: Option<EntityId>,
    seed: u64,
    actor: EntityId,
    def: ReactionDef,
    brain: NpcBrainState,
    constraints: ActionConstraints,
    clock: Option<&CombatState>,
    o: spec_fn(GridPos) -> Option<GridPos>,
) -> (Option<NpcAction>, NpcBrainState, u64) {
    match entities.spec_pos(actor) {
        None => (None, brain, seed),
        Some(from) => if !spec_can_act(entities, actor) {
            (Some(NpcAction::Pass), brain, seed)
        } else {
            match def {
                ReactionDef::FleeFromThreat { range } => {
                    let clearance = 2 * range;
                    let fleeing = brain.active is Flee;
                    match spec_flee_threat_pos(content, entities, player, actor, brain, range, clearance, fleeing) {
                        None => (None, brain, seed),
                        Some(tpos) => if spec_effective_dist(content, entities, player, actor, from, tpos) >= clearance {
                            (Some(NpcAction::Idle), settled(brain), seed)
                        } else {
                            let fb = NpcBrainState { active: ActiveReaction::Flee { from: tpos }, ..brain };
                            let nav = o(spec_flee_goal(map, from, tpos, clearance));
                            match spec_flee_from(map, entities, actor, from, tpos, constraints, clock, nav) {
                                Some(a) => (Some(a), fb, seed),
                                None => if spec_greedy_flee(map, entities, actor, from, tpos) is None {
                                    (Some(NpcAction::Idle), settled(fb), seed)
                                } else {
                                    (None, fb, seed)
                                },
                            }
                        },
                    }
                },
                ReactionDef::FightNearestInTurn => if !constraints.encounter_active {
                    (None, brain, seed)
                } else {
                    match clock {
                        None => (None, brain, seed),
                        Some(c) => if !(constraints.phase is Turn) || !constraints.spec_is_current_turn(c) {
                            (None, brain, seed)
                        } else {
                            let nav = match fight_goal(entities, c, actor, from) {
                                Some(g) => o(g),
                                None => None,
                            };
                            (spec_fight_nearest(entities, c, actor, from, nav), brain, seed)
                        },
                    }
                },
                ReactionDef::InvestigateLastHit => match brain.active {
                    ActiveReaction::Investigate(goal) => if from == goal {
                        (Some(NpcAction::Pass), NpcBrainState { active: ActiveReaction::Inactive, ..brain }, seed)
                    } else {
                        match o(goal) {
                            Some(n) => (Some(NpcAction::Step(n)), brain, seed),
                            None => (None, brain, seed),
                        }
                    },
                    _ => (None, brain, seed),
                },
                ReactionDef::Routine(routine) => if constraints.phase is Turn && (clock is None
                    || !constraints.spec_is_current_turn(clock.unwrap())) {
                    (None, brain, seed)
                } else {
                    let plan = super::exploration::spec_routine_plan(map, entities, actor, from, routine, brain, seed);
                    let fin = super::exploration::spec_routine_finish(
                        routine,
                        plan.0,
                        plan.1,
                        o(super::exploration::plan_goal(plan.1, from)),
                    );
                    (Some(routine_action_of(fin.0, from, constraints, clock)), fin.1, plan.2)
                },
                ReactionDef::CallForHelp { .. } => (Some(NpcAction::Pass), brain, seed),
                ReactionDef::Pass => (Some(NpcAction::Pass), brain, seed),
            }
        },
    }
}

/// The oracle that answers `nav` for `goal` and navigation's answer elsewhere.
pub open spec fn single_answer(
    map: &MapGrid,
    entities: &EntityArena,
    actor: EntityId,
    from: GridPos,
    goal: GridPos,
    nav: Option<GridPos>,
) -> spec_fn(GridPos) -> Option<GridPos> {
    |g: GridPos| if g == goal { nav } else { nav_answer(map, entities, actor, from, g) }
}

pub(crate) proof fn lemma_single_answer(map: &MapGrid, entities: &EntityArena, actor: EntityId, from: GridPos, goal: GridPos, nav: Option<GridPos>)
    requires
        nav_answer_ok(map, entities, actor, from, goal, nav),
    ensures
        oracle_ok(map, entities, actor, from, single_answer(map, entities, actor, from, goal, nav)),
{
    assert forall|g: GridPos| #![trigger single_answer(map, entities, actor, from, goal, nav)(g)] nav_answer_ok(
        map,
        entities,
        actor,
        from,
        g,
        single_answer(map, entities, actor, from, goal, nav)(g),
    ) by {
        if g != goal {
            lemma_nav_answer_exists(map, entities, actor, from, g);
        }
    }
}

pub(crate) fn react(
    ctx: &mut BehaviorCtx<'_>,
    actor: EntityId,
    def: &ReactionDef,
    brain: NpcBrainState,
    constraints: ActionConstraints,
    clock: Option<&CombatState>,
) -> (res: (Option<NpcAction>, NpcBrainState, Ghost<spec_fn(GridPos) -> Option<GridPos>>))
    requires
        old(ctx).map.wf(),
        old(ctx).entities.wf(),
    ensures
        *final(final(ctx).entities) == *final(old(ctx).entities),
        *final(final(ctx).rng) == *final(old(ctx).rng),
        final(ctx).same_world(old(ctx)),
        oracle_ok(old(ctx).map, old(ctx).entities, actor, pos_or_origin(old(ctx).entities, actor), res.2@),
        (res.0, res.1, *final(ctx).rng) == spec_react(
            old(ctx).map,
            old(ctx).entities,
            old(ctx).content,
            old(ctx).player,
            *old(ctx).rng,
            actor,
            *def,
            brain,
            constraints,
            clock,
            res.2@,
        ),
{
    let ghost from0 = pos_or_origin(ctx.entities, actor);
    let ghost none_o = single_answer(ctx.map, ctx.entities, actor, from0, from0, None);
    proof { lemma_single_answer(ctx.map, ctx.entities, actor, from0, from0, None); }
    let actor_pos = match ctx.entities.pos(actor) {
        Some(p) => p,
        None => { return (None, brain, Ghost(none_o)); },
    };
    let can_act = ctx.entities.is_alive(actor) && match ctx.entities.stats(actor) {
        Some(s) => s.hp > 0,
        None => false,
    };
    if !can_act {
        return (Some(NpcAction::Pass), brain, Ghost(none_o));
    }
    match def {
        ReactionDef::FleeFromThreat { range } => {
            let range = *range;
            let clearance = flee_clearance_chebyshev(range);
            let fleeing = matches!(brain.active, ActiveReaction::Flee { .. });
            let threat_pos = match flee_threat_pos(ctx, actor, &brain, range, clearance, fleeing) {
                Some(p) => p,
                None => { return (None, brain, Ghost(none_o)); },
            };
            let dist = effective_threat_distance(ctx, actor, actor_pos, threat_pos);
            if dist >= clearance {
                let mut b = brain;
                b.alarmed_ticks = FLEE_SETTLE_TICKS;
                b.active = ActiveReaction::Inactive;
                return (Some(NpcAction::Idle), b, Ghost(none_o));
            }
            let mut b = brain;
            b.active = ActiveReaction::Flee { from: threat_pos };
            let (a, nav) = flee_from(ctx.map, &*ctx.entities, actor, actor_pos, threat_pos, clearance, constraints, clock);
            let ghost goal = spec_flee_goal(ctx.map, actor_pos, threat_pos, clearance as int);
            let ghost o = single_answer(ctx.map, ctx.entities, actor, actor_pos, goal, nav@);
            proof { lemma_single_answer(ctx.map, ctx.entities, actor, actor_pos, goal, nav@); }
            match a {
                Some(a) => { return (Some(a), b, Ghost(o)); },
                None => {},
            }
            if greedy_flee_step(ctx.map, &*ctx.entities, actor, actor_pos, threat_pos).is_none() {
                b.active = ActiveReaction::Inactive;
                b.alarmed_ticks = FLEE_SETTLE_TICKS;
                return (Some(NpcAction::Idle), b, Ghost(o));
            }
            (None, b, Ghost(o))
        },
        ReactionDef::FightNearestInTurn => {
            if !constraints.encounter_active {
                return (None, brain, Ghost(none_o));
            }
            let clock = match clock {
                Some(c) => c,
                None => { return (None, brain, Ghost(none_o)); },
            };
            if !constraints.in_turn_session() || !constraints.is_current_turn(clock) {
                return (None, brain, Ghost(none_o));
            }
            let (a, nav) = fight_nearest(ctx.map, &*ctx.entities, clock, actor, actor_pos);
            let ghost o = match fight_goal(ctx.entities, clock, actor, actor_pos) {
                Some(g) => single_answer(ctx.map, ctx.entities, actor, actor_pos, g, nav@),
                None => none_o,
            };
            proof {
                if let Some(g) = fight_goal(ctx.entities, clock, actor, actor_pos) {
                    lemma_single_answer(ctx.map, ctx.entities, actor, actor_pos, g, nav@);
                }
            }
            (a, brain, Ghost(o))
        },
        ReactionDef::InvestigateLastHit => {
            let goal = match brain.active {
                ActiveReaction::Investigate(p) => p,
                _ => { return (None, brain, Ghost(none_o)); },
            };
            if actor_pos == goal {
                let mut b = brain;
                b.active = ActiveReaction::Inactive;
                return (Some(NpcAction::Pass), b, Ghost(none_o));
            }
            let nav = shortest_first_step(ctx.map, &*ctx.entities, actor, actor_pos, goal);
            let ghost o = single_answer(ctx.map, ctx.entities, actor, actor_pos, goal, nav);
            proof { lemma_single_answer(ctx.map, ctx.entities, actor, actor_pos, goal, nav); }
            match nav {
                Some(n) => (Some(NpcAction::Step(n)), brain, Ghost(o)),
                None => (None, brain, Ghost(o)),
            }
        },
        ReactionDef::Routine(routine) => {
            let in_turn = constraints.in_turn_session();
            if in_turn {
                match clock {
                    None => { return (None, brain, Ghost(none_o)); },
                    Some(c) => {
                        if !constraints.is_current_turn(c) {
                            return (None, brain, Ghost(none_o));
                        }
                    },
                }
            }
            let ghost c0 = *ctx;
            let mut b = brain;
            let (intent, nav) = super::exploration::routine_tick_ref(ctx, actor, actor_pos, routine, &mut b);
            let ghost plan = super::exploration::spec_routine_plan(c0.map, c0.entities, actor, actor_pos, *routine, brain, *c0.rng);
            let ghost o = single_answer(c0.map, c0.entities, actor, actor_pos, super::exploration::plan_goal(plan.1, actor_pos), nav@);
            proof {
                lemma_single_answer(c0.map, c0.entities, actor, actor_pos, super::exploration::plan_goal(plan.1, actor_pos), nav@);
            }
            let action = match intent {
                super::exploration::ExplorationIntent::Step(target) => {
                    if in_turn {
                        let c = clock.unwrap();
                        let ok = match move_cost_units(actor_pos, target) {
                            Some(cost) => current_ap(c) >= cost,
                            None => false,
                        };
                        if ok { NpcAction::RoamStep(target) } else { NpcAction::Pass }
                    } else {
                        NpcAction::RoamStep(target)
                    }
                },
                super::exploration::ExplorationIntent::Idle => NpcAction::Idle,
            };
            (Some(action), b, Ghost(o))
        },
        ReactionDef::CallForHelp { .. } => (Some(NpcAction::Pass), brain, Ghost(none_o)),
        ReactionDef::Pass => (Some(NpcAction::Pass), brain, Ghost(none_o)),
    }
}


impl<'a> BehaviorCtx<'a> {
    /// `after` may follow `self` when `actor` evaluates reaction `def`: only the actor's
    /// brain and the generator change, as [`spec_react`] says for navigation's answers.
    pub open spec fn reaction_outcome(
        &self,
        after: &BehaviorCtx,
        actor: EntityId,
        def: ReactionDef,
        constraints: ActionConstraints,
        clock: Option<&CombatState>,
        r: Option<NpcAction>,
    ) -> bool {
        &&& after.map == self.map
        &&& after.content == self.content
        &&& after.player == self.player
        &&& after.entities.same_but_brains(self.entities)
        &&& exists|o: spec_fn(GridPos) -> Option<GridPos>|
            #[trigger] oracle_ok(self.map, self.entities, actor, pos_or_origin(self.entities, actor), o) && {
                let res = spec_react(
                    self.map,
                    self.entities,
                    self.content,
                    self.player,
                    *self.rng,
                    actor,
                    def,
                    brain_of(self.entities, actor),
                    constraints,
                    clock,
                    o,
                );
                &&& r == res.0
                &&& after.entities.npc_brain@ == brains_with(self.entities, actor, res.1)
                &&& *after.rng == res.2
            }
    }
}

/// Evaluates one reaction of `actor`; `None` when it does not apply.
pub fn try_reaction(
    ctx: &mut BehaviorCtx<'_>,
    actor: EntityId,
    def: ReactionDef,
    constraints: ActionConstraints,
    clock: Option<&CombatState>,
) -> (r: Option<NpcAction>)
    requires
        old(ctx).map.wf(),
        old(ctx).entities.wf(),
    ensures
        *final(final(ctx).entities) == *final(old(ctx).entities),
        *final(final(ctx).rng) == *final(old(ctx).rng),
        final(ctx).entities.wf(),
        old(ctx).reaction_outcome(final(ctx), actor, def, constraints, clock, r),
{
    let i = actor.0 as usize;
    let brain = if i < ctx.entities.npc_brain.len() {
        ctx.entities.npc_brain[i]
    } else {
        NpcBrainState::default()
    };
    let (r, b, o) = react(ctx, actor, &def, brain, constraints, clock);
    if i < ctx.entities.npc_brain.len() {
        ctx.entities.npc_brain.set(i, b);
    }
    proof {
        assert(oracle_ok(old(ctx).map, old(ctx).entities, actor, pos_or_origin(old(ctx).entities, actor), o@));
    }
    r
}

/// Forced reaction of `actor` (a forced flee), given navigation answers `o`.
pub open spec fn spec_forced(
    map: &MapGrid,
    entities: &EntityArena,
    content: &ContentPack,
    actor: EntityId,
    constraints: ActionConstraints,
    clock: Option<&CombatState>,
    o: spec_fn(GridPos) -> Option<GridPos>,
) -> Option<NpcAction> {
    if (actor.0 as int) >= entities.npc_brain@.len() {
        None
    } else {
        match entities.npc_brain@[actor.0 as int].forced_reaction {
            None => None,
            Some(ForcedReaction::Flee { from }) => match entities.spec_pos(actor) {
                None => None,
                Some(apos) => {
                    let clearance = spec_flee_clearance_for(content, entities, actor);
                    spec_flee_from(map, entities, actor, apos, from, constraints, clock, o(spec_flee_goal(map, apos, from, clearance)))
                },
            },
        }
    }
}

impl<'a> BehaviorCtx<'a> {
    pub open spec fn forced_outcome(
        &self,
        actor: EntityId,
        constraints: ActionConstraints,
        clock: Option<&CombatState>,
        r: Option<NpcAction>,
    ) -> bool {
        exists|o: spec_fn(GridPos) -> Option<GridPos>|
            #[trigger] oracle_ok(self.map, self.entities, actor, pos_or_origin(self.entities, actor), o)
                && r == spec_forced(self.map, self.entities, self.content, actor, constraints, clock, o)
    }
}

/// A forced override (magic, abilities) evaluated before the blueprint reactions.
pub fn try_forced(
    ctx: &mut BehaviorCtx<'_>,
    actor: EntityId,
    constraints: ActionConstraints,
    clock: Option<&CombatState>,
) -> (r: Option<NpcAction>)
    requires
        old(ctx).map.wf(),
        old(ctx).entities.wf(),
    ensures
        *final(final(ctx).entities) == *final(old(ctx).entities),
        *final(final(ctx).rng) == *final(old(ctx).rng),
        final(ctx).same_world(old(ctx)),
        *final(ctx).rng == *old(ctx).rng,
        old(ctx).forced_outcome(actor, constraints, clock, r),
{
    let ghost from0 = pos_or_origin(ctx.entities, actor);
    proof { lemma_single_answer(ctx.map, ctx.entities, actor, from0, from0, None); }
    assert(oracle_ok(ctx.map, ctx.entities, actor, from0, single_answer(ctx.map, ctx.entities, actor, from0, from0, None)));
    let i = actor.0 as usize;
    if i >= ctx.entities.npc_brain.len() {
        return None;
    }
    let forced = match ctx.entities.npc_brain[i].forced_reaction {
        Some(f) => f,
        None => { return None; },
    };
    let actor_pos = match ctx.entities.pos(actor) {
        Some(p) => p,
        None => { return None; },
    };
    match forced {
        ForcedReaction::Flee { from } => {
            let clearance = flee_clearance_for_actor(ctx, actor);
            let (a, nav) = flee_from(ctx.map, &*ctx.entities, actor, actor_pos, from, clearance, constraints, clock);
            let ghost goal = spec_flee_goal(ctx.map, actor_pos, from, clearance as int);
            proof { lemma_single_answer(ctx.map, ctx.entities, actor, actor_pos, goal, nav@); }
            assert(oracle_ok(ctx.map, ctx.entities, actor, from0, single_answer(ctx.map, ctx.entities, actor, actor_pos, goal, nav@)));
            a
        },
    }
}

} // verus!
