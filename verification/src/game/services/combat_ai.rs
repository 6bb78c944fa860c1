//! The encounter AI on the game: the current non-player actor picks an intent (chase when
//! hostile, look into where it was hit, else its routine) and acts on the encounter.

use vstd::prelude::*;

use crate::ai::combat::ChaseNearestPolicy;
use crate::ai::exploration::{exploration_step_ok, next_exploration_step_of};
use crate::ai::{AiIntent, CombatAiCtx, CombatDecisionPolicy};
use crate::behavior::navigation::{nav_step, shortest_first_step};
use crate::behavior::reactions::{brain_of, brains_with};
use crate::behavior::relation::{blueprint_of, spec_blueprint_for};
use crate::behavior::threat::spec_actively_hostile;
use crate::combat::{map_action_outcome, CombatAction, CombatActionReport, CombatState, CombatStateView};
use crate::content::ContentRuntimeHooks;
use crate::entity::{EntityArena, EntityId, GridPos, NpcBrainState};
use crate::step_pacing::{spec_step_ticks, visual_step_cooldown_ticks_from_speed};
use super::behavior::top_encounter_set;
use super::combat::is_actively_hostile_to_player;
use crate::game::modes::GameMode;
use crate::game::pending::report_applied;
use crate::game::state::{in_combat, Game};

verus! {

/// The routine of `actor` decided `intent` from brain `b0`, leaving brain `b1` and
/// generator state `s1`: a step of its routine becomes a move; without a blueprint or a
/// position it waits and nothing changes.
pub open spec fn routine_decided<H: ContentRuntimeHooks>(
    g: &Game<H>,
    actor: EntityId,
    b0: NpcBrainState,
    intent: AiIntent,
    b1: NpcBrainState,
    s1: u64,
) -> bool {
    match (spec_blueprint_for(&g.content, &g.entities, actor), g.entities.spec_pos(actor)) {
        (Some(bp), Some(from)) => exists|r: Option<GridPos>|
            #[trigger] exploration_step_ok(&g.map, &g.entities, actor, from, bp.behavior.routine, b0, g.rng_seed, b1, s1, r)
                && intent == match r {
                Some(t) => AiIntent::Combat(CombatAction::Move { target: t }),
                None => AiIntent::Wait,
            },
        _ => intent == AiIntent::Wait && b1 == b0 && s1 == g.rng_seed,
    }
}

/// The intent `actor` picks when not hostile to the player, with the brain `b1` and
/// generator state `s1` it leaves: one remembering where it was hit steps toward that
/// cell along a shortest path, forgets it once there, and otherwise (or without a path)
/// follows its routine (see [`routine_decided`]).
pub open spec fn calm_intent<H: ContentRuntimeHooks>(
    g: &Game<H>,
    actor: EntityId,
    intent: AiIntent,
    b1: NpcBrainState,
    s1: u64,
) -> bool {
    let b0 = brain_of(&g.entities, actor);
    if b0.investigation_goal is Some && g.entities.spec_pos(actor) is Some {
        let goal = b0.investigation_goal->0;
        let from = g.entities.spec_pos(actor)->0;
        if from == goal {
            routine_decided(g, actor, NpcBrainState { investigation_goal: None, ..b0 }, intent, b1, s1)
        } else {
            match nav_step(&g.map, &g.entities, actor, from, goal) {
                Some(st) => intent == AiIntent::Combat(CombatAction::Move { target: st }) && b1 == b0 && s1 == g.rng_seed,
                None => routine_decided(g, actor, b0, intent, b1, s1),
            }
        }
    } else {
        routine_decided(g, actor, b0, intent, b1, s1)
    }
}

/// The intent `actor` picks on encounter `c`, with the brain `b1` and generator state
/// `s1` it leaves: a hostile actor chases (see [`ChaseNearestPolicy`]), any other one
/// decides as [`calm_intent`] says.
pub open spec fn npc_intent<H: ContentRuntimeHooks>(
    g: &Game<H>,
    c: CombatState,
    actor: EntityId,
    intent: AiIntent,
    b1: NpcBrainState,
    s1: u64,
) -> bool {
    if spec_actively_hostile(&g.entities, &g.content, g.entities.player, actor) {
        &&& ChaseNearestPolicy.spec_decides(actor, &CombatAiCtx { state: &c, map: &g.map, entities: &g.entities }, intent)
        &&& b1 == brain_of(&g.entities, actor)
        &&& s1 == g.rng_seed
    } else {
        calm_intent(g, actor, intent, b1, s1)
    }
}

/// The action an intent runs: its combat action, or passing the turn.
pub open spec fn intent_action(i: AiIntent) -> CombatAction {
    match i {
        AiIntent::Combat(a) => a,
        AiIntent::Wait => CombatAction::Pass,
    }
}

/// A successful move or attack paces the AI.
pub open spec fn paced(i: AiIntent) -> bool {
    i matches AiIntent::Combat(a) && (a is Move || a is Attack)
}

/// `g1` is `before` with `actor`'s brain set to `b1` (when it has a slot) and the
/// generator at `s1`.
pub open spec fn brain_written<H: ContentRuntimeHooks>(before: &Game<H>, g1: &Game<H>, actor: EntityId, b1: NpcBrainState, s1: u64) -> bool {
    &&& *g1 == (Game { entities: g1.entities, rng_seed: s1, ..*before })
    &&& g1.entities == (EntityArena { npc_brain: g1.entities.npc_brain, ..before.entities })
    &&& g1.entities.npc_brain@ == brains_with(&before.entities, actor, b1)
}

/// `after` follows `before` once the encounter AI had its tick: outside an encounter its
/// pacing resets; without a current actor nothing happens; on the player's turn the pacing
/// resets; while the pacing runs it counts down; otherwise the actor picks an intent (see
/// [`npc_intent`]) and runs it on the map, a successful move or attack sets the pacing from
/// its speed, the outcome is taken in and the encounter on top holds the new state.
pub open spec fn combat_ai_stepped<H: ContentRuntimeHooks>(before: &Game<H>, after: &Game<H>) -> bool {
    let s = before.modes.stack@;
    if !in_combat(s) {
        *after == (Game { npc_combat_ai_tick_cooldown: 0, ..*before })
    } else {
        let c = s.last()->Combat_0;
        match c@.current_actor() {
            None => *after == *before,
            Some(actor) => if before.entities.player == Some(actor) {
                *after == (Game { npc_combat_ai_tick_cooldown: 0, ..*before })
            } else if before.npc_combat_ai_tick_cooldown > 0 {
                *after == (Game { npc_combat_ai_tick_cooldown: (before.npc_combat_ai_tick_cooldown - 1) as u16, ..*before })
            } else {
                exists|intent: AiIntent, b1: NpcBrainState, s1: u64, g1: Game<H>|
                    #![trigger npc_intent(before, c, actor, intent, b1, s1), acted(&g1, after, c@, actor, intent)]
                    npc_intent(before, c, actor, intent, b1, s1) && brain_written(before, &g1, actor, b1, s1)
                        && acted(&g1, after, c@, actor, intent)
            },
        }
    }
}

/// `after` follows `g1` once `actor` ran `intent` on encounter `s0` (see
/// [`combat_ai_stepped`]).
pub open spec fn acted<H: ContentRuntimeHooks>(g1: &Game<H>, after: &Game<H>, s0: CombatStateView, actor: EntityId, intent: AiIntent) -> bool {
    exists|e1: EntityArena, r1: u64, s2: CombatStateView, rep: CombatActionReport, mid: Game<H>|
        #![trigger map_action_outcome(s0, s2, &g1.entities, &e1, g1.rng_seed, r1, &g1.map, intent_action(intent), rep), top_encounter_set(&mid, after, s2)]
        map_action_outcome(s0, s2, &g1.entities, &e1, g1.rng_seed, r1, &g1.map, intent_action(intent), rep)
            && report_applied(
            &Game {
                entities: e1,
                rng_seed: r1,
                npc_combat_ai_tick_cooldown: if rep.applied && paced(intent) {
                    spec_step_ticks(
                        match e1.spec_stats(actor) {
                            Some(st) => st.speed,
                            None => 1,
                        },
                    ) as u16
                } else {
                    g1.npc_combat_ai_tick_cooldown
                },
                ..*g1
            },
            &mid,
            s2,
            rep,
        ) && top_encounter_set(&mid, after, s2)
}

/// The routine's intent for `actor` from brain `b0` (see [`routine_decided`]).
fn decide_routine<H: ContentRuntimeHooks>(game: &mut Game<H>, actor: EntityId, b0: NpcBrainState) -> (r: (AiIntent, NpcBrainState))
    requires
        old(game).wf(),
    ensures
        *final(game) == (Game { rng_seed: final(game).rng_seed, ..*old(game) }),
        routine_decided(old(game), actor, b0, r.0, r.1, final(game).rng_seed),
{
    let bp = match blueprint_of(&game.content, &game.entities, actor) {
        Some(b) => b,
        None => {
            return (AiIntent::Wait, b0);
        },
    };
    let from = match game.entities.pos(actor) {
        Some(p) => p,
        None => {
            return (AiIntent::Wait, b0);
        },
    };
    let mut brain = b0;
    let next = next_exploration_step_of(actor, from, &bp.behavior.routine, &mut brain, &game.map, &game.entities, &mut game.rng_seed);
    let intent = match next {
        Some(t) => AiIntent::Combat(CombatAction::Move { target: t }),
        None => AiIntent::Wait,
    };
    (intent, brain)
}

/// The intent of `actor` when not hostile to the player (see [`calm_intent`]).
fn decide_calm_intent<H: ContentRuntimeHooks>(game: &mut Game<H>, actor: EntityId) -> (r: (AiIntent, NpcBrainState))
    requires
        old(game).wf(),
    ensures
        *final(game) == (Game { rng_seed: final(game).rng_seed, ..*old(game) }),
        calm_intent(old(game), actor, r.0, r.1, final(game).rng_seed),
{
    let i = actor.0 as usize;
    let b0 = if i < game.entities.npc_brain.len() { game.entities.npc_brain[i] } else { NpcBrainState::default() };
    match (b0.investigation_goal, game.entities.pos(actor)) {
        (Some(goal), Some(from)) => {
            if from == goal {
                decide_routine(game, actor, NpcBrainState { investigation_goal: None, ..b0 })
            } else {
                match shortest_first_step(&game.map, &game.entities, actor, from, goal) {
                    Some(st) => (AiIntent::Combat(CombatAction::Move { target: st }), b0),
                    None => decide_routine(game, actor, b0),
                }
            }
        },
        _ => decide_routine(game, actor, b0),
    }
}

/// `actor` runs `intent` on the encounter on top (see [`acted`]).
fn act_on_encounter<H: ContentRuntimeHooks>(game: &mut Game<H>, actor: EntityId, intent: AiIntent)
    requires
        old(game).wf(),
        in_combat(old(game).modes.stack@),
        old(game).modes.stack@.last()->Combat_0.wf(),
    ensures
        final(game).wf(),
        acted(old(game), final(game), old(game).modes.stack@.last()->Combat_0@, actor, intent),
{
    let ghost g1 = *game;
    let mut next = match game.modes.current() {
        Some(GameMode::Combat(cs)) => cs.duplicate(),
        _ => {
            return;
        },
    };
    let action = match intent {
        AiIntent::Combat(a) => a,
        AiIntent::Wait => CombatAction::Pass,
    };
    let report = next.apply_map_action(action, &mut game.entities, &mut game.rng_seed, &game.map);
    let paced_move = match intent {
        AiIntent::Combat(CombatAction::Move { .. }) => true,
        AiIntent::Combat(CombatAction::Attack { .. }) => true,
        _ => false,
    };
    if report.applied && paced_move {
        let speed: u16 = match game.entities.stats(actor) {
            Some(st) => st.speed,
            None => 1,
        };
        game.npc_combat_ai_tick_cooldown = visual_step_cooldown_ticks_from_speed(speed);
    }
    game.apply_combat_report(&next, report);
    let ghost g4 = *game;
    let ghost nv = next@;
    let top_combat = match game.modes.current() {
        Some(GameMode::Combat(_)) => true,
        _ => false,
    };
    if top_combat {
        match game.modes.current_mut() {
            Some(GameMode::Combat(cs)) => {
                *cs = next;
            },
            _ => {},
        }
        assert(game.modes.stack@.drop_last() =~= g4.modes.stack@.drop_last());
    }
    assert(top_encounter_set(&g4, &*game, nv));
}

/// One tick of the encounter AI (see [`combat_ai_stepped`]).
pub fn step_npc_combat_ai<H: ContentRuntimeHooks>(game: &mut Game<H>)
    requires
        old(game).wf(),
        in_combat(old(game).modes.stack@) ==> old(game).modes.stack@.last()->Combat_0.wf(),
    ensures
        final(game).wf(),
        combat_ai_stepped(old(game), final(game)),
{
    let actor = match game.modes.current() {
        Some(GameMode::Combat(c)) => match c.current_actor() {
            Some(a) => a,
            None => {
                return;
            },
        },
        _ => {
            game.npc_combat_ai_tick_cooldown = 0;
            return;
        },
    };
    let is_player = match game.entities.player {
        Some(p) => p.0 == actor.0,
        None => false,
    };
    if is_player {
        game.npc_combat_ai_tick_cooldown = 0;
        return;
    }
    if game.npc_combat_ai_tick_cooldown > 0 {
        game.npc_combat_ai_tick_cooldown = game.npc_combat_ai_tick_cooldown - 1;
        return;
    }
    let ghost g0 = *game;
    let ghost c = g0.modes.stack@.last()->Combat_0;
    let i = actor.0 as usize;
    let (intent, b1): (AiIntent, NpcBrainState) = if is_actively_hostile_to_player(game, actor) {
        let intent = match game.modes.current() {
            Some(GameMode::Combat(cs)) => ChaseNearestPolicy.decide(actor, &CombatAiCtx { state: cs, map: &game.map, entities: &game.entities }),
            _ => AiIntent::Wait,
        };
        let b = if i < game.entities.npc_brain.len() { game.entities.npc_brain[i] } else { NpcBrainState::default() };
        (intent, b)
    } else {
        decide_calm_intent(game, actor)
    };
    let ghost s1 = game.rng_seed;
    assert(npc_intent(&g0, c, actor, intent, b1, s1));
    if i < game.entities.npc_brain.len() {
        game.entities.npc_brain.set(i, b1);
    }
    let ghost g1 = *game;
    assert(brain_written(&g0, &g1, actor, b1, s1));
    act_on_encounter(game, actor, intent);
}

} // verus!
