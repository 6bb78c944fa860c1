//! NPC behaviour ticks of the game: the turn clock, realtime exploration moves, and the
//! actions NPCs take on their turn.

use vstd::prelude::*;

use crate::behavior::action::NpcAction;
use crate::behavior::{npc_action_to_combat, spec_npc_action_to_combat};
use crate::behavior::constraints::{ActionConstraints, ActionPhase};
use crate::behavior::ctx::BehaviorCtx;
use crate::behavior::decide::{decide_actor_action, decided};
use crate::behavior::encounter::find_encounter_start;
use crate::behavior::threat::spec_should_start_encounter;
use crate::combat::{CombatRuleset, EncounterOutcomePolicy, EncounterProfile};
use crate::search::first_match;
use super::combat::{combat_start_outcome, detect_hostile_encounters, encounter_started, first_contact, start_combat_encounter};
use crate::behavior::relation::{blueprint_of, spec_blueprint_for};
use crate::ai::exploration::{exploration_step_ok, next_exploration_step_of};
use crate::content::NpcRoutineDef;
use crate::combat::{map_action_outcome, speeds_bounded, CombatAction, CombatActionReport, CombatState, CombatStateView};
use crate::content::{ContentPack, ContentRuntimeHooks};
use crate::entity::{EntityArena, EntityId, GridPos, NpcBrainState};
use crate::math::clamp_i32;
use crate::step_pacing::{explore_step_cooldown, spec_explore_cooldown, spec_step_ticks, visual_step_cooldown_ticks_from_speed};
use crate::game::pending::report_applied;
use crate::world::MapGrid;
use crate::game::modes::GameMode;
use crate::game::state::{in_combat, Game};

verus! {

/// The running turn clock: the active encounter's, else the overworld session's.
pub open spec fn spec_active_turn_clock<H: ContentRuntimeHooks>(game: &Game<H>) -> Option<CombatState> {
    if in_combat(game.modes.stack@) {
        Some(game.modes.stack@.last()->Combat_0)
    } else {
        game.turn_clock
    }
}

/// The running turn clock: the active encounter's, else the overworld session's.
pub fn active_turn_clock<H: ContentRuntimeHooks>(game: &Game<H>) -> (r: Option<&CombatState>)
    ensures
        r matches Some(c) ==> spec_active_turn_clock(game) == Some(*c),
        r is None <==> spec_active_turn_clock(game) is None,
{
    match game.modes.current() {
        Some(GameMode::Combat(cs)) => { return Some(cs); },
        _ => {},
    }
    match &game.turn_clock {
        Some(c) => Some(c),
        None => None,
    }
}

/// Mutable access to the running turn clock.
pub fn active_turn_clock_mut<H: ContentRuntimeHooks>(game: &mut Game<H>) -> (r: Option<&mut CombatState>)
    ensures
        r matches Some(c) ==> spec_active_turn_clock(old(game)) == Some(*c) && if in_combat(old(game).modes.stack@) {
            *final(game) == (Game {
                modes: crate::game::modes::GameModeStack {
                    stack: final(game).modes.stack,
                },
                ..*old(game)
            }) && final(game).modes.stack@ == old(game).modes.stack@.update(
                old(game).modes.stack@.len() - 1,
                GameMode::Combat(*final(c)),
            )
        } else {
            *final(game) == (Game { turn_clock: Some(*final(c)), ..*old(game) })
        },
        r is None ==> spec_active_turn_clock(old(game)) is None && *final(game) == *old(game),
{
    let in_enc = match game.modes.current() {
        Some(GameMode::Combat(_)) => true,
        _ => false,
    };
    if in_enc {
        match game.modes.current_mut() {
            Some(GameMode::Combat(cs)) => { return Some(cs); },
            _ => { return None; },
        }
    }
    match &mut game.turn_clock {
        Some(c) => Some(c),
        None => None,
    }
}

/// An encounter is the active mode.
pub fn in_encounter<H: ContentRuntimeHooks>(game: &Game<H>) -> (b: bool)
    ensures
        b == in_combat(game.modes.stack@),
{
    match game.modes.current() {
        Some(GameMode::Combat(_)) => true,
        _ => false,
    }
}

/// Some turn clock runs (an encounter or an overworld session).
pub fn turn_based_active<H: ContentRuntimeHooks>(game: &Game<H>) -> (b: bool)
    ensures
        b == spec_active_turn_clock(game) is Some,
{
    active_turn_clock(game).is_some()
}

/// A move planned this tick: who, from where, to where, as which action.
pub open spec fn no_steps() -> Seq<(EntityId, GridPos, GridPos, NpcAction)> {
    Seq::empty()
}

/// `e1` is `e0` with every exploration step cooldown one tick lower.
pub open spec fn cooled(e0: &EntityArena, e1: &EntityArena) -> bool {
    &&& e1.same_but_brains(e0)
    &&& e1.npc_brain@.len() == e0.npc_brain@.len()
    &&& forall|j: int|
        0 <= j < e0.npc_brain@.len() ==> #[trigger] e1.npc_brain@[j] == (NpcBrainState {
            explore_step_cooldown: if e0.npc_brain@[j].explore_step_cooldown == 0 {
                0
            } else {
                (e0.npc_brain@[j].explore_step_cooldown - 1) as u16
            },
            ..e0.npc_brain@[j]
        })
}

/// Slot `j` of `e` holds a live actor other than the player, with a blueprint, a position
/// and no step cooldown: it picks a realtime action this tick.
pub open spec fn may_roam(content: &ContentPack, player: Option<EntityId>, e: &EntityArena, j: int) -> bool {
    &&& e.alive@[j]
    &&& player != Some(EntityId(j as u32))
    &&& spec_blueprint_for(content, e, EntityId(j as u32)) is Some
    &&& e.npc_brain@[j].explore_step_cooldown == 0
    &&& e.spec_pos(EntityId(j as u32)) is Some
}

/// Realtime constraints of `actor`.
pub open spec fn realtime_for(actor: EntityId) -> ActionConstraints {
    ActionConstraints { phase: ActionPhase::RealtimeExplore, actor, encounter_active: false }
}

/// Slot `j` decides (when it may) from `(em, rm)` to `(e1, r1)`, its step (if any)
/// appended to `sm`.
pub open spec fn explore_slot(
    map: &MapGrid,
    content: &ContentPack,
    player: Option<EntityId>,
    em: EntityArena,
    rm: u64,
    e1: EntityArena,
    r1: u64,
    sm: Seq<(EntityId, GridPos, GridPos, NpcAction)>,
    steps: Seq<(EntityId, GridPos, GridPos, NpcAction)>,
    j: int,
) -> bool {
    if !may_roam(content, player, &em, j) {
        e1 == em && r1 == rm && steps == sm
    } else {
        let actor = EntityId(j as u32);
        let from = em.spec_pos(actor)->0;
        exists|a: NpcAction|
            #[trigger] decided(map, content, player, &em, rm, &e1, r1, actor, realtime_for(actor), None, a)
                && steps == match a.spec_step_target() {
                Some(t) => sm.push((actor, from, t, a)),
                None => sm,
            }
    }
}

/// `es`, `rs` and `ss` trace the decisions of the slots below `n` in order: slot `i` takes
/// the entities, generator state and planned steps from entry `i` to entry `i + 1`.
pub open spec fn explore_trace(
    map: &MapGrid,
    content: &ContentPack,
    player: Option<EntityId>,
    es: Seq<EntityArena>,
    rs: Seq<u64>,
    ss: Seq<Seq<(EntityId, GridPos, GridPos, NpcAction)>>,
    n: int,
) -> bool {
    &&& n >= 0
    &&& es.len() == n + 1
    &&& rs.len() == n + 1
    &&& ss.len() == n + 1
    &&& ss[0] == no_steps()
    &&& forall|i: int|
        0 <= i < n ==> #[trigger] explore_slot(map, content, player, es[i], rs[i], es[i + 1], rs[i + 1], ss[i], ss[i + 1], i)
}

/// `e1` is `e0` after the planned step `st`: when the target is free, the actor moves
/// there and its step cooldown restarts (paced by its speed, 5 without stats).
pub open spec fn step_applied(map: &MapGrid, e0: &EntityArena, e1: &EntityArena, st: (EntityId, GridPos, GridPos, NpcAction)) -> bool {
    let actor = st.0;
    let from = st.1;
    let target = st.2;
    let a = st.3;
    let j = actor.0 as int;
    if j < e0.len() && e0.spec_can_move_to(map.spec_blocks_movement(target.x as int, target.y as int), target, Some(actor)) {
        let speed = match e0.spec_stats(actor) {
            Some(s) => s.speed,
            None => 5,
        };
        let dx = clamp_i32(target.x - from.x) as i32;
        let dy = clamp_i32(target.y - from.y) as i32;
        &&& e1.position@ == e0.position@.update(j, Some(target))
        &&& e1.npc_brain@ == if a.spec_step_target() is Some {
            e0.npc_brain@.update(
                j,
                NpcBrainState {
                    explore_step_cooldown: spec_explore_cooldown(a is RoamStep, speed, dx, dy) as u16,
                    ..e0.npc_brain@[j]
                },
            )
        } else {
            e0.npc_brain@
        }
        &&& e1.next_id == e0.next_id
        &&& e1.player == e0.player
        &&& e1.alive@ == e0.alive@
        &&& e1.blocks_movement@ == e0.blocks_movement@
        &&& e1.glyph@ == e0.glyph@
        &&& e1.fg@ == e0.fg@
        &&& e1.name@ == e0.name@
        &&& e1.npc_kind@ == e0.npc_kind@
        &&& e1.item@ == e0.item@
        &&& e1.is_container@ == e0.is_container@
        &&& e1.combat_stats@ == e0.combat_stats@
    } else {
        *e1 == *e0
    }
}

/// `es` traces `steps` taken in order: step `k` takes entry `k` to entry `k + 1`.
pub open spec fn steps_trace(map: &MapGrid, es: Seq<EntityArena>, steps: Seq<(EntityId, GridPos, GridPos, NpcAction)>) -> bool {
    &&& es.len() == steps.len() + 1
    &&& forall|k: int| 0 <= k < steps.len() ==> #[trigger] step_applied(map, &es[k], &es[k + 1], steps[k])
}

/// `after` is `before` once the realtime NPCs of an exploration tick moved: every step
/// cooldown counts down, each actor that may act decides in slot order, and the planned
/// steps are taken in that order where the target is free. Outside exploration nothing
/// happens.
pub open spec fn realtime_explored<H: ContentRuntimeHooks>(before: &Game<H>, after: &Game<H>) -> bool {
    if before.modes.stack@.len() > 0 && before.modes.stack@.last() is Exploration {
        &&& *after == (Game { entities: after.entities, rng_seed: after.rng_seed, ..*before })
        &&& exists|
            es: Seq<EntityArena>,
            rs: Seq<u64>,
            ss: Seq<Seq<(EntityId, GridPos, GridPos, NpcAction)>>,
            ts: Seq<EntityArena>,
        |
            #![trigger explore_trace(&before.map, &before.content, before.entities.player, es, rs, ss, before.entities.len()), steps_trace(&before.map, ts, ss.last())]
            {
                &&& cooled(&before.entities, &es[0])
                &&& rs[0] == before.rng_seed
                &&& explore_trace(&before.map, &before.content, before.entities.player, es, rs, ss, before.entities.len())
                &&& ts[0] == es.last()
                &&& steps_trace(&before.map, ts, ss.last())
                &&& after.entities == ts.last()
                &&& after.rng_seed == rs.last()
            }
    } else {
        *after == *before
    }
}

/// Realtime exploration tick of the NPCs (see [`realtime_explored`]).
pub fn tick_realtime_explore<H: ContentRuntimeHooks>(game: &mut Game<H>)
    requires
        old(game).wf(),
    ensures
        final(game).wf(),
        realtime_explored(old(game), final(game)),
{
    let explore = match game.modes.current() {
        Some(GameMode::Exploration) => true,
        _ => false,
    };
    if !explore {
        return;
    }
    let ghost g0 = *game;
    let mut j: usize = 0;
    while j < game.entities.npc_brain.len()
        invariant
            j <= game.entities.npc_brain@.len(),
            g0.wf(),
            game.entities.npc_brain@.len() == g0.entities.npc_brain@.len(),
            game.entities.same_but_brains(&g0.entities),
            *game == (Game { entities: game.entities, ..g0 }),
            game.entities == (EntityArena { npc_brain: game.entities.npc_brain, ..g0.entities }),
            forall|k: int|
                0 <= k < g0.entities.npc_brain@.len() ==> #[trigger] game.entities.npc_brain@[k] == if k < j {
                    NpcBrainState {
                        explore_step_cooldown: if g0.entities.npc_brain@[k].explore_step_cooldown == 0 {
                            0
                        } else {
                            (g0.entities.npc_brain@[k].explore_step_cooldown - 1) as u16
                        },
                        ..g0.entities.npc_brain@[k]
                    }
                } else {
                    g0.entities.npc_brain@[k]
                },
        decreases game.entities.npc_brain@.len() - j,
    {
        let mut b = game.entities.npc_brain[j];
        b.explore_step_cooldown = b.explore_step_cooldown.saturating_sub(1);
        game.entities.npc_brain.set(j, b);
        j = j + 1;
    }
    let ghost ea = game.entities;
    assert(cooled(&g0.entities, &ea));
    assert(game.wf());
    let player = game.entities.player;
    let ghost map0 = game.map;
    let ghost content0 = game.content;
    let mut steps: Vec<(EntityId, GridPos, GridPos, NpcAction)> = Vec::new();
    let ghost mut es: Seq<EntityArena> = seq![ea];
    let ghost mut rs: Seq<u64> = seq![g0.rng_seed];
    let ghost mut ss: Seq<Seq<(EntityId, GridPos, GridPos, NpcAction)>> = seq![no_steps()];
    {
        let mut ctx = BehaviorCtx {
            map: &game.map,
            entities: &mut game.entities,
            content: &game.content,
            rng: &mut game.rng_seed,
            player,
        };
        let mut i: usize = 0;
        while i < ctx.entities.alive.len()
            invariant
                i <= ctx.entities.len(),
                ctx.entities.len() == ea.len(),
                *ctx.map == map0,
                *ctx.content == content0,
                ctx.player == player,
                player == ea.player,
                map0.wf(),
                ctx.entities.wf(),
                ctx.entities.same_but_brains(&ea),
                explore_trace(&map0, &content0, player, es, rs, ss, i as int),
                es.last() == *ctx.entities,
                rs.last() == *ctx.rng,
                ss.last() == steps@,
                es[0] == ea,
                rs[0] == g0.rng_seed,
                after_borrow(game.entities) == *final(ctx.entities),
                after_borrow(game.rng_seed) == *final(ctx.rng),
                forall|q: int| 0 <= q < steps@.len() ==> (#[trigger] steps@[q]).0.0 < i,
            decreases ctx.entities.len() - i,
        {
            let ghost em = *ctx.entities;
            let ghost rm = *ctx.rng;
            let ghost sm = steps@;
            let actor = EntityId(i as u32);
            let is_player = match ctx.player {
                Some(p) => p.0 == actor.0,
                None => false,
            };
            let eligible = ctx.entities.alive[i] && !is_player && ctx.blueprint_for(actor).is_some()
                && ctx.entities.npc_brain[i].explore_step_cooldown == 0 && ctx.entities.pos(actor).is_some();
            assert(actor == EntityId((i as int) as u32));
            assert(eligible == may_roam(&content0, player, &em, i as int));
            if eligible {
                let from = ctx.entities.pos(actor).unwrap();
                let constraints = ActionConstraints::realtime(actor);
                let action = decide_actor_action(&mut ctx, actor, constraints, None);
                match action.step_target() {
                    Some(target) => steps.push((actor, from, target, action)),
                    None => {},
                }
                assert(decided(&map0, &content0, player, &em, rm, &*ctx.entities, *ctx.rng, actor, realtime_for(actor), None, action));
            }
            assert(explore_slot(&map0, &content0, player, em, rm, *ctx.entities, *ctx.rng, sm, steps@, i as int));
            proof {
                let es2 = es.push(*ctx.entities);
                let rs2 = rs.push(*ctx.rng);
                let ss2 = ss.push(steps@);
                assert forall|k: int| 0 <= k < i + 1 implies #[trigger] explore_slot(
                    &map0,
                    &content0,
                    player,
                    es2[k],
                    rs2[k],
                    es2[k + 1],
                    rs2[k + 1],
                    ss2[k],
                    ss2[k + 1],
                    k,
                ) by {
                    if k < i {
                        assert(es2[k] == es[k] && es2[k + 1] == es[k + 1]);
                        assert(rs2[k] == rs[k] && rs2[k + 1] == rs[k + 1]);
                        assert(ss2[k] == ss[k] && ss2[k + 1] == ss[k + 1]);
                    }
                }
                es = es2;
                rs = rs2;
                ss = ss2;
            }
            i = i + 1;
        }
    }
    assert(game.entities == es.last());
    assert(game.rng_seed == rs.last());
    assert(game.entities.wf());
    let ghost eb = game.entities;
    assert(explore_trace(&map0, &content0, player, es, rs, ss, ea.len()));
    let ghost mut ts: Seq<EntityArena> = seq![eb];
    let mut k: usize = 0;
    while k < steps.len()
        invariant
            k <= steps@.len(),
            steps@ == ss.last(),
            map0 == game.map,
            game.map.wf(),
            game.entities.wf(),
            speeds_bounded(&game.entities),
            *game == (Game { entities: game.entities, rng_seed: game.rng_seed, ..g0 }),
            game.rng_seed == rs.last(),
            ts.len() == k + 1,
            ts[0] == eb,
            ts.last() == game.entities,
            forall|q: int| 0 <= q < k ==> #[trigger] step_applied(&map0, &ts[q], &ts[q + 1], steps@[q]),
            forall|q: int| 0 <= q < steps@.len() ==> (#[trigger] steps@[q]).0.0 < game.entities.len(),
        decreases steps@.len() - k,
    {
        let (actor, from, target, action) = steps[k];
        let ghost e0 = game.entities;
        let blocked = game.map.blocks_movement(target.x, target.y);
        if game.entities.can_move_to(blocked, target, Some(actor)) {
            let dx = sat_diff(target.x, from.x);
            let dy = sat_diff(target.y, from.y);
            game.entities.set_pos(actor, target);
            let speed: u16 = match game.entities.stats(actor) {
                Some(s) => s.speed,
                None => 5,
            };
            match action.explore_step_cooldown(speed, dx, dy) {
                Some(cd) => {
                    let i = actor.0 as usize;
                    let mut b = game.entities.npc_brain[i];
                    b.explore_step_cooldown = cd;
                    game.entities.npc_brain.set(i, b);
                },
                None => {},
            }
        }
        proof {
            let ts2 = ts.push(game.entities);
            assert(step_applied(&map0, &e0, &game.entities, steps@[k as int]));
            assert forall|q: int| 0 <= q < k + 1 implies #[trigger] step_applied(&map0, &ts2[q], &ts2[q + 1], steps@[q]) by {
                if q < k {
                    assert(ts2[q] == ts[q] && ts2[q + 1] == ts[q + 1]);
                }
            }
            ts = ts2;
        }
        k = k + 1;
    }
    assert(steps_trace(&map0, ts, ss.last()));
    assert(explore_trace(&g0.map, &g0.content, g0.entities.player, es, rs, ss, g0.entities.len()));
    assert(steps_trace(&g0.map, ts, ss.last()));
}

/// `a - b`, saturated to the `i32` range.
fn sat_diff(a: i32, b: i32) -> (d: i32)
    ensures
        d == clamp_i32(a - b),
{
    let v: i64 = a as i64 - b as i64;
    if v > i32::MAX as i64 {
        i32::MAX
    } else if v < i32::MIN as i64 {
        i32::MIN
    } else {
        v as i32
    }
}


/// The pacing cooldown after a successful NPC action: a step's own cooldown when the move
/// is known, else the speed's base pacing (speed 1 without stats).
pub open spec fn turn_cooldown(e: &EntityArena, actor: EntityId, move_step: Option<(i32, i32)>, leisurely: bool) -> u16 {
    let speed = match e.spec_stats(actor) {
        Some(s) => s.speed,
        None => 1,
    };
    match move_step {
        None => spec_step_ticks(speed) as u16,
        Some(d) => spec_explore_cooldown(leisurely, speed, d.0, d.1) as u16,
    }
}

/// `after` is `mid` with the encounter on top of the stack (if any) set to a state whose
/// contents are `s1`.
pub open spec fn top_encounter_set<H: ContentRuntimeHooks>(mid: &Game<H>, after: &Game<H>, s1: CombatStateView) -> bool {
    if in_combat(mid.modes.stack@) {
        &&& *after == (Game { modes: after.modes, ..*mid })
        &&& after.modes.stack@.len() == mid.modes.stack@.len()
        &&& after.modes.stack@.drop_last() == mid.modes.stack@.drop_last()
        &&& after.modes.stack@.last() matches GameMode::Combat(c) && c@ == s1
    } else {
        *after == *mid
    }
}

/// After the action, in an encounter: the report is taken in and the encounter state
/// stored; on the overworld clock: the clock is stored.
pub open spec fn turn_action_tail<H: ContentRuntimeHooks>(mid: &Game<H>, after: &Game<H>, s1: CombatStateView, rep: CombatActionReport) -> bool {
    if in_combat(mid.modes.stack@) {
        exists|g4: Game<H>| #[trigger] report_applied(mid, &g4, s1, rep) && top_encounter_set(&g4, after, s1)
    } else {
        &&& *after == (Game { turn_clock: after.turn_clock, ..*mid })
        &&& after.turn_clock matches Some(c) && c@ == s1
    }
}

/// `after` is `before` once `action` of `actor` ran on the running turn clock (nothing
/// without one): the action resolves on the game's map, the pacing cooldown restarts when
/// it applied and `pace` asks for it, and the outcome is stored (see
/// [`turn_action_tail`]).
pub open spec fn turn_action_applied<H: ContentRuntimeHooks>(
    before: &Game<H>,
    after: &Game<H>,
    action: CombatAction,
    move_step: Option<(i32, i32)>,
    pace: bool,
    leisurely: bool,
    actor: EntityId,
) -> bool {
    match spec_active_turn_clock(before) {
        None => *after == *before,
        Some(clock) => exists|s1: CombatStateView, e1: EntityArena, r1: u64, rep: CombatActionReport|
            #[trigger] map_action_outcome(clock@, s1, &before.entities, &e1, before.rng_seed, r1, &before.map, action, rep)
                && turn_action_tail(
                &Game {
                    entities: e1,
                    rng_seed: r1,
                    npc_combat_ai_tick_cooldown: if rep.applied && pace {
                        turn_cooldown(&e1, actor, move_step, leisurely)
                    } else {
                        before.npc_combat_ai_tick_cooldown
                    },
                    ..*before
                },
                after,
                s1,
                rep,
            ),
    }
}

/// Runs `action` of `actor` on the running turn clock (see [`turn_action_applied`]).
fn apply_turn_action<H: ContentRuntimeHooks>(
    game: &mut Game<H>,
    action: CombatAction,
    move_step: Option<(i32, i32)>,
    pace_after_success: bool,
    leisurely_step: bool,
    actor: EntityId,
)
    requires
        old(game).wf(),
        spec_active_turn_clock(old(game)) matches Some(c) ==> c.wf(),
    ensures
        final(game).wf(),
        turn_action_applied(old(game), final(game), action, move_step, pace_after_success, leisurely_step, actor),
{
    let mut next = match active_turn_clock(game) {
        Some(c) => c.duplicate(),
        None => { return; },
    };
    let ghost g0 = *game;
    let report = next.apply_map_action(action, &mut game.entities, &mut game.rng_seed, &game.map);
    let ghost e1 = game.entities;
    let ghost r1 = game.rng_seed;
    let ghost rep = report;
    if report.applied && pace_after_success {
        let speed: u16 = match game.entities.stats(actor) {
            Some(s) => s.speed,
            None => 1,
        };
        game.npc_combat_ai_tick_cooldown = match move_step {
            None => visual_step_cooldown_ticks_from_speed(speed),
            Some(d) => explore_step_cooldown(leisurely_step, speed, d.0, d.1),
        };
    }
    let ghost mid = *game;
    assert(mid == (Game {
        entities: e1,
        rng_seed: r1,
        npc_combat_ai_tick_cooldown: if rep.applied && pace_after_success {
            turn_cooldown(&e1, actor, move_step, leisurely_step)
        } else {
            g0.npc_combat_ai_tick_cooldown
        },
        ..g0
    }));
    if in_encounter(game) {
        game.apply_combat_report(&next, report);
        let ghost g4 = *game;
        let ghost nv = next@;
        let top_combat = in_encounter(game);
        if top_combat {
            match game.modes.current_mut() {
                Some(GameMode::Combat(cs)) => {
                    *cs = next;
                },
                _ => {},
            }
            assert(game.modes.stack@.drop_last() =~= g4.modes.stack@.drop_last());
        }
        assert(top_encounter_set(&g4, &*game, nv));
        assert(report_applied(&mid, &g4, nv, rep));
    } else {
        game.turn_clock = Some(next);
    }
}


/// The move of `a` from `from` as a grid delta (each saturated to `i32`), when `a` steps
/// and the start is known.
pub open spec fn move_step_of(from: Option<GridPos>, a: NpcAction) -> Option<(i32, i32)> {
    match (a.spec_step_target(), from) {
        (Some(t), Some(f)) => Some((clamp_i32(t.x - f.x) as i32, clamp_i32(t.y - f.y) as i32)),
        _ => None,
    }
}

/// `after` is `before` once the NPC whose turn it is on `clock` acted: nothing without a
/// current actor; the player's turn only resets the pacing; while the pacing cooldown
/// runs it counts down; otherwise the actor decides (with the turn's constraints) and
/// its action runs on the running turn clock.
pub open spec fn turn_actor_ticked<H: ContentRuntimeHooks>(before: &Game<H>, after: &Game<H>, clock: CombatState) -> bool {
    match clock@.current_actor() {
        None => *after == *before,
        Some(actor) => if before.entities.player == Some(actor) {
            *after == (Game { npc_combat_ai_tick_cooldown: 0, ..*before })
        } else if before.npc_combat_ai_tick_cooldown > 0 {
            *after == (Game { npc_combat_ai_tick_cooldown: (before.npc_combat_ai_tick_cooldown - 1) as u16, ..*before })
        } else {
            let constraints = ActionConstraints {
                phase: ActionPhase::Turn { turn_index: clock.turn_index },
                actor,
                encounter_active: in_combat(before.modes.stack@),
            };
            exists|e1: EntityArena, r1: u64, a: NpcAction|
                #[trigger] decided(&before.map, &before.content, before.entities.player, &before.entities, before.rng_seed, &e1, r1, actor, constraints, Some(&clock), a)
                    && turn_action_applied(
                    &Game { entities: e1, rng_seed: r1, ..*before },
                    after,
                    spec_npc_action_to_combat(a),
                    move_step_of(before.entities.spec_pos(actor), a),
                    a is Step || a is Attack,
                    a is RoamStep,
                    actor,
                )
        },
    }
}

/// The NPC whose turn it is on `clock` acts (see [`turn_actor_ticked`]).
fn tick_turn_actor<H: ContentRuntimeHooks>(game: &mut Game<H>, clock: &CombatState)
    requires
        old(game).wf(),
        spec_active_turn_clock(old(game)) matches Some(c) ==> c.wf(),
    ensures
        final(game).wf(),
        turn_actor_ticked(old(game), final(game), *clock),
{
    let actor = match clock.current_actor() {
        Some(a) => a,
        None => { return; },
    };
    let is_player = match game.entities.player {
        Some(p) => p.0 == actor.0,
        None => false,
    };
    if is_player {
        game.npc_combat_ai_tick_cooldown = 0;
        return;
    }
    if game.npc_combat_ai_tick_cooldown > 0 {
        game.npc_combat_ai_tick_cooldown = game.npc_combat_ai_tick_cooldown - 1;
        return;
    }
    let ghost g0 = *game;
    let actor_pos_before = game.entities.pos(actor);
    let constraints = ActionConstraints::for_turn(clock, actor, in_encounter(game));
    let player = game.entities.player;
    let action = {
        let mut ctx = BehaviorCtx {
            map: &game.map,
            entities: &mut game.entities,
            content: &game.content,
            rng: &mut game.rng_seed,
            player,
        };
        decide_actor_action(&mut ctx, actor, constraints, Some(clock))
    };
    let ghost e1 = game.entities;
    let ghost r1 = game.rng_seed;
    assert(decided(&g0.map, &g0.content, g0.entities.player, &g0.entities, g0.rng_seed, &e1, r1, actor, constraints, Some(clock), action));
    assert(*game == (Game { entities: e1, rng_seed: r1, ..g0 }));
    assert(speeds_bounded(&game.entities));
    let pace_after_success = match action {
        NpcAction::Step(_) => true,
        NpcAction::Attack { .. } => true,
        _ => false,
    };
    let move_step = match (action.step_target(), actor_pos_before) {
        (Some(t), Some(f)) => Some((sat_diff(t.x, f.x), sat_diff(t.y, f.y))),
        _ => None,
    };
    let leisurely_step = action.is_leisurely_step();
    let combat_action = npc_action_to_combat(action);
    apply_turn_action(game, combat_action, move_step, pace_after_success, leisurely_step, actor);
}


/// Lowest live slot other than `p` whose actor should start an encounter with the player.
pub open spec fn encounter_slot<H: ContentRuntimeHooks>(game: &Game<H>, p: EntityId) -> Option<int> {
    first_match(
        game.entities.len(),
        |j: int| game.entities.alive@[j] && j != p.0 && spec_should_start_encounter(
            &game.content,
            &game.entities,
            Some(p),
            EntityId(j as u32),
        ),
    )
}

/// `after` is `before` once the NPCs had their tick: in the menu or after defeat only the
/// combat pacing resets; in exploration an NPC that should start an encounter with the
/// player does so (the lowest such slot); otherwise the current NPC of a running turn
/// clock acts, or else the realtime NPCs move.
pub open spec fn npcs_ticked<H: ContentRuntimeHooks>(before: &Game<H>, after: &Game<H>) -> bool {
    let stack = before.modes.stack@;
    if stack.len() > 0 && (stack.last() is MainMenu || stack.last() is GameOver) {
        *after == (Game { npc_combat_ai_tick_cooldown: 0, ..*before })
    } else if stack.len() > 0 && stack.last() is Exploration && before.entities.player is Some
        && encounter_slot(before, before.entities.player->0) is Some {
        let p = before.entities.player->0;
        combat_start_outcome(
            before,
            after,
            seq![p, EntityId(encounter_slot(before, p)->0 as u32)],
            EncounterProfile { ruleset: CombatRuleset::Lethal, outcome_policy: EncounterOutcomePolicy::Plain },
            "Hostile contact!"@,
        )
    } else {
        match spec_active_turn_clock(before) {
            Some(clock) => exists|c: CombatState| #[trigger] turn_actor_ticked(before, after, c) && c@ == clock@,
            None => realtime_explored(before, after),
        }
    }
}

/// The NPC tick of a game step (see [`npcs_ticked`]).
pub fn tick_npcs<H: ContentRuntimeHooks>(game: &mut Game<H>)
    requires
        old(game).wf(),
        spec_active_turn_clock(old(game)) matches Some(c) ==> c.wf(),
    ensures
        final(game).wf(),
        npcs_ticked(old(game), final(game)),
{
    let (menu_or_over, exploring) = match game.modes.current() {
        Some(GameMode::MainMenu { .. }) => (true, false),
        Some(GameMode::GameOver) => (true, false),
        Some(GameMode::Exploration) => (false, true),
        _ => (false, false),
    };
    if menu_or_over {
        game.npc_combat_ai_tick_cooldown = 0;
        return;
    }
    let ghost g0 = *game;
    if exploring && !in_encounter(game) {
        let player = game.entities.player;
        // The search only reads the context: a copy of the generator state will do.
        let mut seed = game.rng_seed;
        let encounter = {
            let ctx = BehaviorCtx {
                map: &game.map,
                entities: &mut game.entities,
                content: &game.content,
                rng: &mut seed,
                player,
            };
            let found = find_encounter_start(&ctx);
            proof {
                match player {
                    Some(p) => {
                        crate::search::lemma_first_match_ext(
                            ctx.entities.len(),
                            ctx.encounter_pred(p),
                            |j: int| ctx.entities.alive@[j] && j != p.0 && spec_should_start_encounter(
                                ctx.content,
                                ctx.entities,
                                Some(p),
                                EntityId(j as u32),
                            ),
                        );
                    },
                    None => {},
                }
            }
            found
        };
        assert(game.entities == g0.entities);
        match encounter {
            Some((p, h)) => {
                let mut parts: Vec<EntityId> = Vec::new();
                parts.push(p);
                parts.push(h);
                assert(parts@ =~= seq![p, h]);
                start_combat_encounter(
                    game,
                    parts,
                    EncounterProfile { ruleset: CombatRuleset::Lethal, outcome_policy: EncounterOutcomePolicy::Plain },
                    "Hostile contact!",
                );
                return;
            },
            None => {},
        }
    }
    let clock = match active_turn_clock(game) {
        Some(c) => Some(c.duplicate()),
        None => None,
    };
    match clock {
        Some(c) => {
            tick_turn_actor(game, &c);
            assert(turn_actor_ticked(&g0, &*game, c) && c@ == spec_active_turn_clock(&g0)->0@);
        },
        None => tick_realtime_explore(game),
    }
}



/// Ticks exploration NPCs wait after one of them moved.
pub const NPC_EXPLORATION_AI_COOLDOWN_TICKS: u16 = 6;

/// Slot `j` of `e0` takes its exploration routine step: from `(e0, r0, moved0)` to
/// `(e1, r1, moved1)` (`moved`: some NPC moved so far).
pub open spec fn ai_slot(
    map: &MapGrid,
    content: &ContentPack,
    player: Option<EntityId>,
    e0: EntityArena,
    r0: u64,
    moved0: bool,
    e1: EntityArena,
    r1: u64,
    moved1: bool,
    j: int,
) -> bool {
    let eid = EntityId(j as u32);
    if !(e0.alive@[j] && player != Some(eid) && spec_blueprint_for(content, &e0, eid) is Some && e0.spec_pos(eid) is Some) {
        e1 == e0 && r1 == r0 && moved1 == moved0
    } else {
        let routine = spec_blueprint_for(content, &e0, eid)->0.behavior.routine;
        let from = e0.spec_pos(eid)->0;
        let b0 = e0.npc_brain@[j];
        if routine is Idle {
            e1 == e0 && r1 == r0 && moved1 == moved0
        } else {
            exists|b1: NpcBrainState, next: Option<GridPos>|
                #[trigger] exploration_step_ok(map, &e0, eid, from, routine, b0, r0, b1, r1, next) && {
                    let moves = next matches Some(t) && e0.spec_can_move_to(
                        map.spec_blocks_movement(t.x as int, t.y as int),
                        t,
                        Some(eid),
                    );
                    &&& e1.npc_brain@ == e0.npc_brain@.update(j, b1)
                    &&& e1.position@ == if moves {
                        e0.position@.update(j, next)
                    } else {
                        e0.position@
                    }
                    &&& moved1 == (moved0 || moves)
                    &&& e1.next_id == e0.next_id
                    &&& e1.player == e0.player
                    &&& e1.alive@ == e0.alive@
                    &&& e1.blocks_movement@ == e0.blocks_movement@
                    &&& e1.glyph@ == e0.glyph@
                    &&& e1.fg@ == e0.fg@
                    &&& e1.name@ == e0.name@
                    &&& e1.npc_kind@ == e0.npc_kind@
                    &&& e1.item@ == e0.item@
                    &&& e1.is_container@ == e0.is_container@
                    &&& e1.combat_stats@ == e0.combat_stats@
                }
        }
    }
}

/// `es`, `rs` and `ms` trace the routine steps of the slots below `n` in order.
pub open spec fn ai_trace(
    map: &MapGrid,
    content: &ContentPack,
    player: Option<EntityId>,
    es: Seq<EntityArena>,
    rs: Seq<u64>,
    ms: Seq<bool>,
    n: int,
) -> bool {
    &&& n >= 0
    &&& es.len() == n + 1
    &&& rs.len() == n + 1
    &&& ms.len() == n + 1
    &&& !ms[0]
    &&& forall|i: int| 0 <= i < n ==> #[trigger] ai_slot(map, content, player, es[i], rs[i], ms[i], es[i + 1], rs[i + 1], ms[i + 1], i)
}

/// `after` is `before` once the older exploration stepper ran: outside exploration only
/// its cooldown resets; hostile contact starts an encounter (and resets the cooldown);
/// while the cooldown runs it counts down; otherwise every NPC with a routine takes its
/// step in slot order, and the cooldown restarts when one of them moved.
pub open spec fn exploration_ai_stepped<H: ContentRuntimeHooks>(before: &Game<H>, after: &Game<H>) -> bool {
    let stack = before.modes.stack@;
    if !(stack.len() > 0 && stack.last() is Exploration) {
        *after == (Game { npc_exploration_ai_tick_cooldown: 0, ..*before })
    } else if before.entities.player is Some && first_contact(before, before.entities.player->0) is Some {
        let pid = before.entities.player->0;
        let parts = seq![pid, EntityId(first_contact(before, pid)->0 as u32)];
        exists|mid: Game<H>|
            #[trigger] encounter_started(
                before,
                &mid,
                parts,
                EncounterProfile { ruleset: CombatRuleset::Lethal, outcome_policy: EncounterOutcomePolicy::Plain },
                "Hostile contact!"@,
            ) && *after == (Game { npc_exploration_ai_tick_cooldown: 0, ..mid })
    } else if before.npc_exploration_ai_tick_cooldown > 0 {
        *after == (Game {
            npc_exploration_ai_tick_cooldown: (before.npc_exploration_ai_tick_cooldown - 1) as u16,
            ..*before
        })
    } else {
        exists|es: Seq<EntityArena>, rs: Seq<u64>, ms: Seq<bool>|
            #[trigger] ai_trace(&before.map, &before.content, before.entities.player, es, rs, ms, before.entities.len()) && {
                &&& es[0] == before.entities
                &&& rs[0] == before.rng_seed
                &&& *after == (Game {
                    entities: es.last(),
                    rng_seed: rs.last(),
                    npc_exploration_ai_tick_cooldown: if ms.last() { NPC_EXPLORATION_AI_COOLDOWN_TICKS } else { 0 },
                    ..*before
                })
            }
    }
}

impl<H: ContentRuntimeHooks> Game<H> {
    /// The older exploration stepper (see [`exploration_ai_stepped`]).
    pub fn step_npc_exploration_ai(&mut self)
        requires
            old(self).wf(),
        ensures
            final(self).wf(),
            exploration_ai_stepped(old(self), final(self)),
    {
        let explore = match self.modes.current() {
            Some(GameMode::Exploration) => true,
            _ => false,
        };
        if !explore {
            self.npc_exploration_ai_tick_cooldown = 0;
            return;
        }
        let ghost g0 = *self;
        if detect_hostile_encounters(self) {
            self.npc_exploration_ai_tick_cooldown = 0;
            return;
        }
        if self.npc_exploration_ai_tick_cooldown > 0 {
            self.npc_exploration_ai_tick_cooldown = self.npc_exploration_ai_tick_cooldown - 1;
            return;
        }
        let player = self.entities.player;
        let mut moved_any = false;
        let ghost mut es: Seq<EntityArena> = seq![self.entities];
        let ghost mut rs: Seq<u64> = seq![self.rng_seed];
        let ghost mut ms: Seq<bool> = seq![false];
        let mut i: usize = 0;
        while i < self.entities.alive.len()
            invariant
                i <= self.entities.len(),
                self.entities.len() == g0.entities.len(),
                self.wf(),
                g0.wf(),
                player == g0.entities.player,
                *self == (Game { entities: self.entities, rng_seed: self.rng_seed, ..g0 }),
                ai_trace(&g0.map, &g0.content, player, es, rs, ms, i as int),
                es.last() == self.entities,
                rs.last() == self.rng_seed,
                ms.last() == moved_any,
                es[0] == g0.entities,
                rs[0] == g0.rng_seed,
            decreases self.entities.len() - i,
        {
            let ghost e0 = self.entities;
            let ghost r0 = self.rng_seed;
            let ghost m0 = moved_any;
            let eid = EntityId(i as u32);
            assert(eid == EntityId((i as int) as u32));
            let is_player = match player {
                Some(p) => p.0 == eid.0,
                None => false,
            };
            if self.entities.alive[i] && !is_player {
                match blueprint_of(&self.content, &self.entities, eid) {
                    Some(bp) => match self.entities.pos(eid) {
                        Some(from) => {
                            let idle = match bp.behavior.routine {
                                NpcRoutineDef::Idle => true,
                                _ => false,
                            };
                            if !idle {
                                let mut brain = self.entities.npc_brain[i];
                                let next = next_exploration_step_of(
                                    eid,
                                    from,
                                    &bp.behavior.routine,
                                    &mut brain,
                                    &self.map,
                                    &self.entities,
                                    &mut self.rng_seed,
                                );
                                let ghost b1 = brain;
                                // Whether the target is free does not depend on the brains.
                                let moves = match next {
                                    Some(target) => {
                                        let blocked = self.map.blocks_movement(target.x, target.y);
                                        self.entities.can_move_to(blocked, target, Some(eid))
                                    },
                                    None => false,
                                };
                                self.entities.npc_brain.set(i, brain);
                                if moves {
                                    self.entities.set_pos(eid, next.unwrap());
                                    moved_any = true;
                                }
                                assert(exploration_step_ok(&g0.map, &e0, eid, from, bp.behavior.routine, e0.npc_brain@[i as int], r0, b1, self.rng_seed, next));
                                assert(speeds_bounded(&self.entities));
                                assert(self.entities.npc_brain@ == e0.npc_brain@.update(i as int, b1));
                                assert(moves == (next matches Some(t) && e0.spec_can_move_to(
                                    g0.map.spec_blocks_movement(t.x as int, t.y as int),
                                    t,
                                    Some(eid),
                                )));
                                assert(self.entities.position@ == if moves {
                                    e0.position@.update(i as int, next)
                                } else {
                                    e0.position@
                                });
                                assert(spec_blueprint_for(&g0.content, &e0, eid) == Some(*bp));
                            }
                        },
                        None => {},
                    },
                    None => {},
                }
            }
            assert(ai_slot(&g0.map, &g0.content, player, e0, r0, m0, self.entities, self.rng_seed, moved_any, i as int));
            proof {
                let es2 = es.push(self.entities);
                let rs2 = rs.push(self.rng_seed);
                let ms2 = ms.push(moved_any);
                assert forall|k: int| 0 <= k < i + 1 implies #[trigger] ai_slot(
                    &g0.map,
                    &g0.content,
                    player,
                    es2[k],
                    rs2[k],
                    ms2[k],
                    es2[k + 1],
                    rs2[k + 1],
                    ms2[k + 1],
                    k,
                ) by {
                    if k < i {
                        assert(es2[k] == es[k] && es2[k + 1] == es[k + 1]);
                        assert(rs2[k] == rs[k] && rs2[k + 1] == rs[k + 1]);
                        assert(ms2[k] == ms[k] && ms2[k + 1] == ms[k + 1]);
                    }
                }
                es = es2;
                rs = rs2;
                ms = ms2;
            }
            i = i + 1;
        }
        self.npc_exploration_ai_tick_cooldown = if moved_any { NPC_EXPLORATION_AI_COOLDOWN_TICKS } else { 0 };
        assert(ai_trace(&g0.map, &g0.content, g0.entities.player, es, rs, ms, g0.entities.len()));
    }
}

} // verus!
