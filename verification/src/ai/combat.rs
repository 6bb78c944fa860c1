//! A simple combat policy: attack an adjacent opponent, else close in on the nearest one.

use vstd::prelude::*;

use crate::behavior::exploration::plan_goal;
use crate::behavior::navigation::{shortest_first_step, lemma_nav_answer_exists, nav_answer, nav_answer_ok};
use crate::behavior::reactions::{clock_ap, fight_closest_upto};
use crate::behavior::threat::cheb;
use crate::combat::{move_cost_units, spec_move_cost, AttackStyle, CombatAction, ATTACK_COST_UNITS};
use crate::entity::{EntityId, GridPos};
use crate::math::{chebyshev, manhattan};
use super::{AiIntent, CombatAiCtx, CombatDecisionPolicy};

verus! {

/// Attack an adjacent opponent, else move toward the nearest one.
pub struct ChaseNearestPolicy;

/// Position of the opponent the chase policy targets.
pub open spec fn chase_goal(ctx: &CombatAiCtx, actor: EntityId, from: GridPos) -> Option<GridPos> {
    match fight_closest_upto(ctx.entities, ctx.state.initiative@, actor, from, ctx.state.initiative@.len() as int) {
        Some(b) => ctx.entities.spec_pos(b.0),
        None => None,
    }
}

/// The chase policy's intent, navigation toward the target having answered `nav`: attack
/// when adjacent with enough AP, step when the step is affordable, wait otherwise.
pub open spec fn spec_chase(ctx: &CombatAiCtx, actor: EntityId, nav: Option<GridPos>) -> AiIntent {
    match ctx.entities.spec_pos(actor) {
        None => AiIntent::Wait,
        Some(from) => match fight_closest_upto(
            ctx.entities,
            ctx.state.initiative@,
            actor,
            from,
            ctx.state.initiative@.len() as int,
        ) {
            None => AiIntent::Wait,
            Some(best) => match ctx.entities.spec_pos(best.0) {
                None => AiIntent::Wait,
                Some(tpos) => if cheb(from, tpos) == 1 {
                    if clock_ap(ctx.state) >= ATTACK_COST_UNITS {
                        AiIntent::Combat(CombatAction::Attack { target: best.0, style: AttackStyle::Unarmed })
                    } else {
                        AiIntent::Wait
                    }
                } else {
                    match nav {
                        None => AiIntent::Wait,
                        Some(next) => match spec_move_cost(from, next) {
                            None => AiIntent::Wait,
                            Some(cost) => if clock_ap(ctx.state) < cost {
                                AiIntent::Wait
                            } else {
                                AiIntent::Combat(CombatAction::Move { target: next })
                            },
                        },
                    }
                },
            },
        },
    }
}

impl CombatDecisionPolicy for ChaseNearestPolicy {
    open spec fn spec_decides(&self, actor: EntityId, ctx: &CombatAiCtx, r: AiIntent) -> bool {
        exists|nav: Option<GridPos>|
            #[trigger] nav_answer_ok(
                ctx.map,
                ctx.entities,
                actor,
                crate::behavior::reactions::pos_or_origin(ctx.entities, actor),
                plan_goal(
                    chase_goal(ctx, actor, crate::behavior::reactions::pos_or_origin(ctx.entities, actor)),
                    crate::behavior::reactions::pos_or_origin(ctx.entities, actor),
                ),
                nav,
            ) && r == spec_chase(ctx, actor, nav)
    }

    fn decide(&self, actor: EntityId, ctx: &CombatAiCtx<'_>) -> (r: AiIntent) {
        let ghost from0 = crate::behavior::reactions::pos_or_origin(ctx.entities, actor);
        let ghost goal0 = plan_goal(chase_goal(ctx, actor, from0), from0);
        proof { lemma_nav_answer_exists(ctx.map, ctx.entities, actor, from0, goal0); }
        let ghost w = nav_answer(ctx.map, ctx.entities, actor, from0, goal0);
        assert(nav_answer_ok(ctx.map, ctx.entities, actor, from0, goal0, w));
        let actor_pos = match ctx.entities.pos(actor) {
            Some(p) => p,
            None => { return AiIntent::Wait; },
        };
        let mut closest: Option<(EntityId, i32)> = None;
        let mut i: usize = 0;
        while i < ctx.state.initiative.len()
            invariant
                i <= ctx.state.initiative@.len(),
                closest matches Some(b) ==> fight_closest_upto(ctx.entities, ctx.state.initiative@, actor, actor_pos, i as int)
                    == Some((b.0, b.1 as int)),
                closest is None ==> fight_closest_upto(ctx.entities, ctx.state.initiative@, actor, actor_pos, i as int) is None,
            decreases ctx.state.initiative@.len() - i,
        {
            let target = ctx.state.initiative[i];
            if target.0 != actor.0 {
                let can_act = ctx.entities.is_alive(target) && match ctx.entities.stats(target) {
                    Some(s) => s.hp > 0,
                    None => false,
                };
                if can_act {
                    match ctx.entities.pos(target) {
                        Some(p) => {
                            let d = manhattan(actor_pos, p);
                            let better = match closest {
                                Some(b) => d < b.1,
                                None => true,
                            };
                            if better {
                                closest = Some((target, d));
                            }
                        },
                        None => {},
                    }
                }
            }
            i = i + 1;
        }
        let target_id = match closest {
            Some(b) => b.0,
            None => { return AiIntent::Wait; },
        };
        let target_pos = match ctx.entities.pos(target_id) {
            Some(p) => p,
            None => { return AiIntent::Wait; },
        };
        let ap: u16 = match ctx.state.current_ap_units() {
            Some(u) => u,
            None => 0,
        };
        if chebyshev(actor_pos, target_pos) == 1 {
            if ap >= ATTACK_COST_UNITS {
                return AiIntent::Combat(CombatAction::Attack { target: target_id, style: AttackStyle::Unarmed });
            }
            return AiIntent::Wait;
        }
        let nav = shortest_first_step(ctx.map, ctx.entities, actor, actor_pos, target_pos);
        assert(nav_answer_ok(ctx.map, ctx.entities, actor, from0, goal0, nav));
        let next = match nav {
            Some(n) => n,
            None => { return AiIntent::Wait; },
        };
        let step_cost = match move_cost_units(actor_pos, next) {
            Some(c) => c,
            None => { return AiIntent::Wait; },
        };
        if ap < step_cost {
            return AiIntent::Wait;
        }
        AiIntent::Combat(CombatAction::Move { target: next })
    }
}

} // verus!
