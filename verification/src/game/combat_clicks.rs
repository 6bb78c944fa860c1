//! Pointer input during an encounter: marching the player along a shortest path, and
//! clicking a fighter (march into reach, then attack) or a cell (march there).

use vstd::prelude::*;

use crate::behavior::navigation::{nav_step, shortest_first_step};
use crate::combat::{
    map_action_outcome, AttackStyle, CombatAction, CombatActionReport, CombatState, CombatStateView,
    EncounterOutcomePolicy, ATTACK_COST_UNITS, MOVE_ORTHOGONAL_COST_UNITS,
};
use crate::content::ContentRuntimeHooks;
use crate::entity::{EntityArena, EntityId, GridPos};
use crate::game::combat_actions::{attack_reaches, attack_tried, spec_attack_style};
use crate::game::modes::GameMode;
use crate::game::pending::report_applied;
use crate::game::services::behavior::top_encounter_set;
use crate::game::state::{in_combat, Game};
use crate::math::{chebyshev, clamp_i32, spec_chebyshev};
use crate::search::{first_match, lemma_first_match_is, lemma_first_match_none};

verus! {

/// How many steps a march takes at most.
pub const MARCH_MAX_STEPS: u32 = 64;

/// Whether the march of `player` toward `goal` is over before another step: `Some(true)`
/// when the encounter is gone or has no current actor, `Some(false)` when it is not the
/// player's turn, the player stands nowhere, it is already close enough (within `stop`'s
/// distance of `stop`'s entity, or on `goal` without one), it lacks the AP for a straight
/// step, or no path leads on; `None` when it steps.
pub open spec fn march_halt<H: ContentRuntimeHooks>(
    g: &Game<H>,
    s: CombatStateView,
    player: EntityId,
    goal: GridPos,
    stop: Option<(EntityId, i32)>,
) -> Option<bool> {
    if !in_combat(g.modes.stack@) {
        Some(true)
    } else {
        match s.current_actor() {
            None => Some(true),
            Some(a) => if a != player {
                Some(false)
            } else {
                match g.entities.spec_pos(player) {
                    None => Some(false),
                    Some(from) => if (match stop {
                        Some(st) => g.entities.spec_pos(st.0) matches Some(tp) && clamp_i32(spec_chebyshev(from, tp)) <= st.1,
                        None => from == goal,
                    }) {
                        Some(false)
                    } else if (match s.current_ap_units() {
                        Some(u) => u,
                        None => 0u16,
                    }) < MOVE_ORTHOGONAL_COST_UNITS {
                        Some(false)
                    } else if nav_step(&g.map, &g.entities, player, from, goal) is None {
                        Some(false)
                    } else {
                        None
                    },
                }
            },
        }
    }
}

/// `g1` and `s1` follow `g0` and `s0` once the player stepped onto `next` on encounter `s0`
/// (see [`map_action_outcome`]) and the outcome `rep` was taken in.
pub open spec fn march_stepped<H: ContentRuntimeHooks>(
    g0: &Game<H>,
    s0: CombatStateView,
    g1: &Game<H>,
    s1: CombatStateView,
    next: GridPos,
    rep: CombatActionReport,
) -> bool {
    exists|e1: EntityArena, r1: u64|
        #[trigger] map_action_outcome(s0, s1, &g0.entities, &e1, g0.rng_seed, r1, &g0.map, CombatAction::Move { target: next }, rep)
            && report_applied(&Game { entities: e1, rng_seed: r1, ..*g0 }, g1, s1, rep)
}

/// `g1` and `s1` follow `g0` and `s0` once the player marched toward `goal` for at most `k`
/// steps, and `ended` says whether the encounter ended on the way: each step, unless the
/// march is over (see [`march_halt`]), moves the player to the first cell of a shortest
/// path to `goal` (see [`march_stepped`]); a step that ends the encounter or is refused
/// ends the march.
pub open spec fn marched<H: ContentRuntimeHooks>(
    g0: &Game<H>,
    s0: CombatStateView,
    g1: &Game<H>,
    s1: CombatStateView,
    player: EntityId,
    goal: GridPos,
    stop: Option<(EntityId, i32)>,
    k: nat,
    ended: bool,
) -> bool
    decreases k,
{
    if k == 0 {
        *g1 == *g0 && s1 == s0 && !ended
    } else {
        match march_halt(g0, s0, player, goal, stop) {
            Some(e) => *g1 == *g0 && s1 == s0 && ended == e,
            None => {
                let next = nav_step(&g0.map, &g0.entities, player, g0.entities.spec_pos(player)->0, goal)->0;
                exists|ga: Game<H>, sa: CombatStateView, rep: CombatActionReport|
                    #[trigger] march_stepped(g0, s0, &ga, sa, next, rep) && if rep.end_combat {
                        *g1 == ga && s1 == sa && ended
                    } else if !rep.applied {
                        *g1 == ga && s1 == sa && !ended
                    } else {
                        marched(&ga, sa, g1, s1, player, goal, stop, (k - 1) as nat, ended)
                    }
            },
        }
    }
}

/// How close the player needs to get to attack: a bow's range, else adjacent.
pub open spec fn reach_of<H: ContentRuntimeHooks>(g: &Game<H>, player: EntityId) -> i32 {
    match spec_attack_style(g, player) {
        AttackStyle::Bow { range, .. } => range as i32,
        _ => 1i32,
    }
}

/// `g1` and `s1` follow `g0` and `s0` once the player marched into reach of `target`
/// (standing on `tp`) and then, if the encounter goes on, it is still the player's turn,
/// `target` takes part, the weapon reaches and the AP suffice, attacked it (see
/// [`attack_tried`]).
pub open spec fn marched_and_attacked<H: ContentRuntimeHooks>(
    g0: &Game<H>,
    s0: CombatStateView,
    g1: &Game<H>,
    s1: CombatStateView,
    player: EntityId,
    target: EntityId,
    tp: GridPos,
) -> bool {
    exists|gm: Game<H>, sm: CombatStateView, ended: bool|
        #[trigger] marched(g0, s0, &gm, sm, player, tp, Some((target, reach_of(g0, player))), MARCH_MAX_STEPS as nat, ended)
            && if ended || !in_combat(gm.modes.stack@) || sm.current_actor() != Some(player) {
            *g1 == gm && s1 == sm
        } else if sm.initiative.contains(target) && attack_reaches(&gm, player, target) && (match sm.current_ap_units() {
            Some(u) => u,
            None => 0u16,
        }) >= ATTACK_COST_UNITS {
            attack_tried(&gm, g1, sm, s1, target)
        } else {
            *g1 == gm && s1 == sm
        }
}

/// Lowest slot on `wp` other than the player's that takes part in encounter `s`.
pub open spec fn clicked_fighter(e: &EntityArena, s: CombatStateView, pid: EntityId, wp: GridPos) -> Option<int> {
    first_match(e.len(), |j: int| e.occupies(j, wp.x, wp.y) && j != pid.0 as int && s.initiative.contains(EntityId(j as u32)))
}

/// `g1` and `s1` follow `g0` and `s0` once the player clicked the world cell `wp` on its
/// turn: in a training spar it goes for the trainer wherever the click was; otherwise a
/// click on a fighter goes for that fighter, and a click elsewhere marches the player
/// there (see [`marched`] and [`marched_and_attacked`]). Nothing happens without a player,
/// off its turn, or with the trainer standing nowhere.
pub open spec fn encounter_click_done<H: ContentRuntimeHooks>(
    g0: &Game<H>,
    s0: CombatStateView,
    g1: &Game<H>,
    s1: CombatStateView,
    wp: GridPos,
) -> bool {
    match g0.entities.player {
        None => *g1 == *g0 && s1 == s0,
        Some(pid) => if s0.current_actor() != Some(pid) {
            *g1 == *g0 && s1 == s0
        } else {
            match s0.profile.outcome_policy {
                EncounterOutcomePolicy::TrainingSpar { trainer } => match g0.entities.spec_pos(trainer) {
                    None => *g1 == *g0 && s1 == s0,
                    Some(tp) => marched_and_attacked(g0, s0, g1, s1, pid, trainer, tp),
                },
                EncounterOutcomePolicy::Plain => match clicked_fighter(&g0.entities, s0, pid, wp) {
                    Some(j) => marched_and_attacked(g0, s0, g1, s1, pid, EntityId(j as u32), g0.entities.position@[j]->0),
                    None => exists|ended: bool| #[trigger] marched(g0, s0, g1, s1, pid, wp, None, MARCH_MAX_STEPS as nat, ended),
                },
            }
        },
    }
}

/// The encounter on top is well formed.
pub open spec fn encounter_ready<H: ContentRuntimeHooks>(g: &Game<H>) -> bool {
    in_combat(g.modes.stack@) && g.modes.stack@.last()->Combat_0.wf()
}

/// `after` follows `before` once the player left-clicked the world cell `wp` during an
/// encounter: the click acts on the encounter on top (see [`encounter_click_done`]), which
/// then holds the new state while it is still on top; without a well-formed encounter on
/// top nothing changes.
pub open spec fn encounter_clicked<H: ContentRuntimeHooks>(before: &Game<H>, after: &Game<H>, wp: GridPos) -> bool {
    if encounter_ready(before) {
        exists|g1: Game<H>, s1: CombatStateView|
            #[trigger] encounter_click_done(before, before.modes.stack@.last()->Combat_0@, &g1, s1, wp) && top_encounter_set(
                &g1,
                after,
                s1,
            )
    } else {
        *after == *before
    }
}

/// `after` follows `before` once the player right-clicked the world cell `wp` during an
/// encounter: on its turn it marches there (see [`marched`]), and the encounter on top then
/// holds the new state while it is still on top; without a well-formed encounter on top,
/// without a player or off its turn nothing changes.
pub open spec fn encounter_march_ordered<H: ContentRuntimeHooks>(before: &Game<H>, after: &Game<H>, wp: GridPos) -> bool {
    let s0 = before.modes.stack@.last()->Combat_0@;
    if encounter_ready(before) && before.entities.player is Some && s0.current_actor() == before.entities.player {
        exists|g1: Game<H>, s1: CombatStateView, ended: bool|
            #[trigger] marched(before, s0, &g1, s1, before.entities.player->0, wp, None, MARCH_MAX_STEPS as nat, ended)
                && top_encounter_set(&g1, after, s1)
    } else {
        *after == *before
    }
}

impl<H: ContentRuntimeHooks> Game<H> {
    /// Marches `player` toward `goal` on `state` for at most `max_steps` steps; says whether
    /// the encounter ended on the way (see [`marched`]).
    pub fn combat_march_toward(
        &mut self,
        state: &mut CombatState,
        player: EntityId,
        goal: GridPos,
        stop: Option<(EntityId, i32)>,
        max_steps: u32,
    ) -> (ended: bool)
        requires
            old(self).wf(),
            old(state).wf(),
        ensures
            final(self).wf(),
            final(state).wf(),
            marched(old(self), old(state)@, final(self), final(state)@, player, goal, stop, max_steps as nat, ended),
        decreases max_steps,
    {
        if max_steps == 0 {
            return false;
        }
        let in_enc = match self.modes.current() {
            Some(GameMode::Combat(_)) => true,
            _ => false,
        };
        if !in_enc {
            return true;
        }
        let actor = match state.current_actor() {
            Some(a) => a,
            None => {
                return true;
            },
        };
        if actor.0 != player.0 {
            return false;
        }
        let from = match self.entities.pos(player) {
            Some(p) => p,
            None => {
                return false;
            },
        };
        let close = match stop {
            Some((f, d)) => match self.entities.pos(f) {
                Some(tp) => chebyshev(from, tp) <= d,
                None => false,
            },
            None => from == goal,
        };
        if close {
            return false;
        }
        let ap: u16 = match state.current_ap_units() {
            Some(u) => u,
            None => 0,
        };
        if ap < MOVE_ORTHOGONAL_COST_UNITS {
            return false;
        }
        let next = match shortest_first_step(&self.map, &self.entities, player, from, goal) {
            Some(n) => n,
            None => {
                return false;
            },
        };
        let ghost g0 = *self;
        let ghost s0 = state@;
        let report = state.apply_map_action(CombatAction::Move { target: next }, &mut self.entities, &mut self.rng_seed, &self.map);
        let ghost rep = report;
        let applied = report.applied;
        let ended = report.end_combat;
        self.apply_combat_report(state, report);
        let ghost ga = *self;
        let ghost sa = state@;
        assert(march_stepped(&g0, s0, &ga, sa, next, rep));
        if ended {
            return true;
        }
        if !applied {
            return false;
        }
        self.combat_march_toward(state, player, goal, stop, max_steps - 1)
    }

    /// How close the player needs to get to attack (see [`reach_of`]).
    fn reach(&self, player: EntityId) -> (d: i32)
        ensures
            d == reach_of(self, player),
    {
        match self.attack_style_for_entity(player) {
            AttackStyle::Bow { range, .. } => range as i32,
            _ => 1,
        }
    }

    /// Marches into reach of `target` (on `tp`), then attacks it when it can (see
    /// [`marched_and_attacked`]).
    fn march_and_attack(&mut self, state: &mut CombatState, player: EntityId, target: EntityId, tp: GridPos)
        requires
            old(self).wf(),
            old(state).wf(),
        ensures
            final(self).wf(),
            final(state).wf(),
            marched_and_attacked(old(self), old(state)@, final(self), final(state)@, player, target, tp),
    {
        let d = self.reach(player);
        let ended = self.combat_march_toward(state, player, tp, Some((target, d)), MARCH_MAX_STEPS);
        let ghost gm = *self;
        let ghost sm = state@;
        assert(marched(old(self), old(state)@, &gm, sm, player, tp, Some((target, reach_of(old(self), player))), MARCH_MAX_STEPS as nat, ended));
        if ended {
            return;
        }
        let in_enc = match self.modes.current() {
            Some(GameMode::Combat(_)) => true,
            _ => false,
        };
        if !in_enc {
            return;
        }
        let turn = match state.current_actor() {
            Some(a) => a.0 == player.0,
            None => false,
        };
        if !turn {
            return;
        }
        let ap: u16 = match state.current_ap_units() {
            Some(u) => u,
            None => 0,
        };
        if self.combat_player_can_basic_attack_target(state, player, target) && ap >= ATTACK_COST_UNITS {
            self.combat_try_attack_target(state, target);
        }
    }

    /// The fighter clicked on `wp` (see [`clicked_fighter`]).
    fn fighter_at(&self, state: &CombatState, pid: EntityId, wp: GridPos) -> (r: Option<EntityId>)
        requires
            self.wf(),
        ensures
            r == (match clicked_fighter(&self.entities, state@, pid, wp) {
                Some(j) => Some(EntityId(j as u32)),
                None => None,
            }),
            r matches Some(e) ==> (e.0 as int) < self.entities.len() && self.entities.position@[e.0 as int] is Some,
    {
        let ghost p = |j: int| self.entities.occupies(j, wp.x, wp.y) && j != pid.0 as int && state@.initiative.contains(EntityId(j as u32));
        let n = self.entities.alive.len();
        let mut j: usize = 0;
        while j < n
            invariant
                self.wf(),
                n == self.entities.len(),
                j <= n,
                p == (|j: int| self.entities.occupies(j, wp.x, wp.y) && j != pid.0 as int && state@.initiative.contains(EntityId(j as u32))),
                forall|k: int| 0 <= k < j ==> !#[trigger] p(k),
            decreases n - j,
        {
            let here = match self.entities.position[j] {
                Some(q) => q.x == wp.x && q.y == wp.y,
                None => false,
            };
            if self.entities.alive[j] && here && j != pid.0 as usize && state.contains_actor(EntityId(j as u32)) {
                proof {
                    lemma_first_match_is(n as int, p, j as int);
                }
                return Some(EntityId(j as u32));
            }
            j = j + 1;
        }
        proof {
            lemma_first_match_none(n as int, p);
        }
        None
    }

    /// A left click on `wp` acting on encounter `state` (see [`encounter_click_done`]).
    fn combat_try_primary_click(&mut self, state: &mut CombatState, wp: GridPos)
        requires
            old(self).wf(),
            old(state).wf(),
        ensures
            final(self).wf(),
            final(state).wf(),
            encounter_click_done(old(self), old(state)@, final(self), final(state)@, wp),
    {
        let pid = match self.entities.player {
            Some(p) => p,
            None => {
                return;
            },
        };
        let turn = match state.current_actor() {
            Some(a) => a.0 == pid.0,
            None => false,
        };
        if !turn {
            return;
        }
        let policy = state.profile.outcome_policy;
        match policy {
            EncounterOutcomePolicy::TrainingSpar { trainer } => {
                match self.entities.pos(trainer) {
                    Some(tp) => {
                        self.march_and_attack(state, pid, trainer, tp);
                        assert(marched_and_attacked(old(self), old(state)@, &*self, state@, pid, trainer, tp));
                    },
                    None => {},
                }
            },
            EncounterOutcomePolicy::Plain => {
                match self.fighter_at(state, pid, wp) {
                    Some(e) => {
                        let ep = match self.entities.pos(e) {
                            Some(p) => p,
                            None => {
                                return;
                            },
                        };
                        proof {
                            crate::search::lemma_first_match(
                                old(self).entities.len(),
                                |j: int| old(self).entities.occupies(j, wp.x, wp.y) && j != pid.0 as int && old(state)@.initiative.contains(EntityId(j as u32)),
                            );
                        }
                        self.march_and_attack(state, pid, e, ep);
                    },
                    None => {
                        let ended = self.combat_march_toward(state, pid, wp, None, MARCH_MAX_STEPS);
                        assert(marched(old(self), old(state)@, &*self, state@, pid, wp, None, MARCH_MAX_STEPS as nat, ended));
                    },
                }
            },
        }
    }

    /// Writes `next` into the encounter on top, while there is one.
    fn set_top_encounter(&mut self, next: CombatState)
        ensures
            top_encounter_set(old(self), final(self), next@),
    {
        let ghost g4 = *self;
        let top_combat = match self.modes.current() {
            Some(GameMode::Combat(_)) => true,
            _ => false,
        };
        if top_combat {
            match self.modes.current_mut() {
                Some(GameMode::Combat(cs)) => {
                    *cs = next;
                },
                _ => {},
            }
            assert(self.modes.stack@.drop_last() =~= g4.modes.stack@.drop_last());
        }
    }

    /// A left click on the world cell `wp` during an encounter (see
    /// [`encounter_clicked`]); the shell turns the screen cell into `wp`.
    pub fn encounter_primary_click(&mut self, wp: GridPos)
        requires
            old(self).wf(),
        ensures
            final(self).wf(),
            encounter_clicked(old(self), final(self), wp),
    {
        let mut next = match self.modes.current() {
            Some(GameMode::Combat(cs)) => {
                if cs.ap_remaining.len() != cs.initiative.len() {
                    return;
                }
                cs.duplicate()
            },
            _ => {
                return;
            },
        };
        self.combat_try_primary_click(&mut next, wp);
        let ghost g1 = *self;
        let ghost s1 = next@;
        self.set_top_encounter(next);
        assert(encounter_click_done(old(self), old(self).modes.stack@.last()->Combat_0@, &g1, s1, wp));
    }

    /// A right click on the world cell `wp` during an encounter (see
    /// [`encounter_march_ordered`]).
    pub fn encounter_secondary_click(&mut self, wp: GridPos)
        requires
            old(self).wf(),
        ensures
            final(self).wf(),
            encounter_march_ordered(old(self), final(self), wp),
    {
        let mut next = match self.modes.current() {
            Some(GameMode::Combat(cs)) => {
                if cs.ap_remaining.len() != cs.initiative.len() {
                    return;
                }
                cs.duplicate()
            },
            _ => {
                return;
            },
        };
        let pid = match self.entities.player {
            Some(p) => p,
            None => {
                return;
            },
        };
        let turn = match next.current_actor() {
            Some(a) => a.0 == pid.0,
            None => false,
        };
        if !turn {
            return;
        }
        let ended = self.combat_march_toward(&mut next, pid, wp, None, MARCH_MAX_STEPS);
        let ghost g1 = *self;
        let ghost s1 = next@;
        assert(marched(old(self), old(self).modes.stack@.last()->Combat_0@, &g1, s1, pid, wp, None, MARCH_MAX_STEPS as nat, ended));
        self.set_top_encounter(next);
    }
}

} // verus!
