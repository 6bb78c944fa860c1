//! The player's actions in an encounter: weapon choice, stepping and attacking.

use vstd::prelude::*;

use crate::combat::{attack_action_outcome, map_action_outcome, AttackStyle, CombatAction, CombatActionReport, CombatState, CombatStateView};
use crate::content::ContentRuntimeHooks;
use crate::entity::{EntityArena, EntityId, GridPos};
use crate::item::{first_def_index, quiver_total, WeaponKind};
use crate::math::{chebyshev, clamp_i32, spec_chebyshev};
use crate::narrative::NarrativeState;
use super::pending::report_applied;
use super::state::Game;

verus! {

/// Weapon profile `actor` attacks with: the player's weapon-hand item when it is a melee
/// weapon, or a bow with arrows in the quiver; unarmed otherwise (and for every NPC).
pub open spec fn spec_attack_style<H: ContentRuntimeHooks>(game: &Game<H>, actor: EntityId) -> AttackStyle {
    if game.entities.player != Some(actor) {
        AttackStyle::Unarmed
    } else {
        match game.narrative.spec_main_hand_index() {
            None => AttackStyle::Unarmed,
            Some(j) => match first_def_index(game.content.item_defs@, game.narrative.inventory.stacks@[j].id@) {
                None => AttackStyle::Unarmed,
                Some(k) => match game.content.item_defs@[k].weapon {
                    None => AttackStyle::Unarmed,
                    Some(w) => match w.kind {
                        WeaponKind::Melee => AttackStyle::Melee { to_hit: w.to_hit, damage_bonus: w.damage_bonus },
                        WeaponKind::Bow => if quiver_total(game.narrative.inventory.stacks@, "arrow"@) > 0 {
                            AttackStyle::Bow { to_hit: w.to_hit, damage_bonus: w.damage_bonus, range: w.range }
                        } else {
                            AttackStyle::Unarmed
                        },
                    },
                },
            },
        }
    }
}

/// A target `d` cells away (Chebyshev) is within reach of `style`.
pub open spec fn style_reaches(style: AttackStyle, d: int) -> bool {
    match style {
        AttackStyle::Bow { range, .. } => 1 <= d <= range,
        _ => d == 1,
    }
}

/// The narrative an attack may draw arrows from: the player's own, and none for an NPC.
pub open spec fn owned_narrative(own: bool, n: NarrativeState) -> Option<NarrativeState> {
    if own { Some(n) } else { None }
}

/// `actor` and `target` both stand somewhere and `actor`'s weapon reaches `target`.
pub open spec fn attack_reaches<H: ContentRuntimeHooks>(game: &Game<H>, actor: EntityId, target: EntityId) -> bool {
    match (game.entities.spec_pos(actor), game.entities.spec_pos(target)) {
        (Some(p), Some(tp)) => style_reaches(spec_attack_style(game, actor), clamp_i32(spec_chebyshev(p, tp))),
        _ => false,
    }
}

/// `after` is `before` once action outcome `(s1, e1, r1, rep)` of the encounter was taken in.
pub open spec fn player_action_done<H: ContentRuntimeHooks>(
    before: &Game<H>,
    after: &Game<H>,
    e1: EntityArena,
    r1: u64,
    n1: NarrativeState,
    s1: CombatStateView,
    rep: CombatActionReport,
) -> bool {
    report_applied(&Game { entities: e1, rng_seed: r1, narrative: n1, ..*before }, after, s1, rep)
}

/// `after` and `s1` follow `before` and `s0` once the current actor of `s0` tried to step by
/// `(dx, dy)` and the outcome was taken in (nothing without a placed current actor).
pub open spec fn combat_moved<H: ContentRuntimeHooks>(
    before: &Game<H>,
    after: &Game<H>,
    s0: CombatStateView,
    s1: CombatStateView,
    dx: i32,
    dy: i32,
) -> bool {
    match s0.current_actor() {
        None => *after == *before && s1 == s0,
        Some(actor) => match before.entities.spec_pos(actor) {
            None => *after == *before && s1 == s0,
            Some(p) => exists|e1: EntityArena, r1: u64, rep: CombatActionReport|
                #[trigger] map_action_outcome(
                    s0,
                    s1,
                    &before.entities,
                    &e1,
                    before.rng_seed,
                    r1,
                    &before.map,
                    CombatAction::Move { target: GridPos { x: (p.x + dx) as i32, y: (p.y + dy) as i32 } },
                    rep,
                ) && player_action_done(before, after, e1, r1, before.narrative, s1, rep),
        },
    }
}

/// `after` and `s1` follow `before` and `s0` once the current actor of `s0` tried to attack
/// `target`: nothing happens without a current actor or when its weapon does not reach;
/// otherwise the attack resolves (see [`attack_action_outcome`]) with the player's own
/// narrative paying for arrows, and the outcome is taken in.
pub open spec fn attack_tried<H: ContentRuntimeHooks>(
    before: &Game<H>,
    after: &Game<H>,
    s0: CombatStateView,
    s1: CombatStateView,
    target: EntityId,
) -> bool {
    match s0.current_actor() {
        None => *after == *before && s1 == s0,
        Some(actor) => if !attack_reaches(before, actor, target) {
            *after == *before && s1 == s0
        } else {
            let own = before.entities.player == Some(actor);
            exists|e1: EntityArena, r1: u64, n1: NarrativeState, rep: CombatActionReport|
                #[trigger] attack_action_outcome(
                    s0,
                    s1,
                    &before.entities,
                    &e1,
                    before.rng_seed,
                    r1,
                    &before.map,
                    owned_narrative(own, before.narrative),
                    owned_narrative(own, n1),
                    target,
                    spec_attack_style(before, actor),
                    rep,
                ) && (!own ==> n1 == before.narrative) && player_action_done(
                    before,
                    after,
                    e1,
                    r1,
                    n1,
                    s1,
                    rep,
                )
        },
    }
}

impl<H: ContentRuntimeHooks> Game<H> {
    /// Weapon profile `actor` attacks with (see [`spec_attack_style`]).
    pub fn attack_style_for_entity(&self, actor: EntityId) -> (s: AttackStyle)
        ensures
            s == spec_attack_style(self, actor),
    {
        let is_player = match self.entities.player {
            Some(p) => p.0 == actor.0,
            None => false,
        };
        if !is_player {
            return AttackStyle::Unarmed;
        }
        let id = match self.narrative.main_hand_item_id() {
            Some(id) => id,
            None => { return AttackStyle::Unarmed; },
        };
        let def = match self.content.item_catalog().get(id) {
            Some(d) => d,
            None => { return AttackStyle::Unarmed; },
        };
        match def.weapon {
            None => AttackStyle::Unarmed,
            Some(w) => match w.kind {
                WeaponKind::Melee => AttackStyle::Melee { to_hit: w.to_hit, damage_bonus: w.damage_bonus },
                WeaponKind::Bow => {
                    let arrows = self.narrative.quiver_count_for_ranged("arrow");
                    proof {
                        crate::item::lemma_quiver_total_nonneg(self.narrative.inventory.stacks@, "arrow"@);
                    }
                    if arrows > 0 {
                        AttackStyle::Bow { to_hit: w.to_hit, damage_bonus: w.damage_bonus, range: w.range }
                    } else {
                        AttackStyle::Unarmed
                    }
                },
            },
        }
    }

    /// The player may attack `target` in `state`: it takes part, both stand somewhere,
    /// and the player's weapon reaches it.
    pub fn combat_player_can_basic_attack_target(&self, state: &CombatState, player: EntityId, target: EntityId) -> (b: bool)
        ensures
            b == (state@.initiative.contains(target) && attack_reaches(self, player, target)),
    {
        if !state.contains_actor(target) {
            return false;
        }
        let pp = match self.entities.pos(player) {
            Some(p) => p,
            None => { return false; },
        };
        let tp = match self.entities.pos(target) {
            Some(p) => p,
            None => { return false; },
        };
        let d = chebyshev(pp, tp);
        match self.attack_style_for_entity(player) {
            AttackStyle::Bow { range, .. } => d >= 1 && d <= range as i32,
            _ => d == 1,
        }
    }

    /// The current actor of `state` steps by `(dx, dy)`, and the outcome is taken in.
    pub fn combat_try_move(&mut self, state: &mut CombatState, dx: i32, dy: i32)
        requires
            old(self).wf(),
            old(state).wf(),
            old(state)@.current_actor() matches Some(a) ==> (old(self).entities.spec_pos(a) matches Some(p) ==> i32::MIN
                <= p.x + dx <= i32::MAX && i32::MIN <= p.y + dy <= i32::MAX),
        ensures
            final(self).wf(),
            final(state).wf(),
            combat_moved(old(self), final(self), old(state)@, final(state)@, dx, dy),
    {
        let actor = match state.current_actor() {
            Some(a) => a,
            None => { return; },
        };
        let p = match self.entities.pos(actor) {
            Some(p) => p,
            None => { return; },
        };
        let target = GridPos { x: p.x + dx, y: p.y + dy };
        let report = state.apply_map_action(CombatAction::Move { target }, &mut self.entities, &mut self.rng_seed, &self.map);
        let ghost mid = *self;
        let ghost rep = report;
        self.apply_combat_report(state, report);
        assert(player_action_done(old(self), &*self, mid.entities, mid.rng_seed, old(self).narrative, state@, rep));
    }

    /// The current actor of `state` attacks `target` with its weapon (the player's
    /// narrative pays for arrows), and the outcome is taken in.
    #[verifier::spinoff_prover]
    pub fn combat_apply_attack(&mut self, state: &mut CombatState, target: EntityId)
        requires
            old(self).wf(),
            old(state).wf(),
        ensures
            final(self).wf(),
            final(state).wf(),
            match old(state)@.current_actor() {
                None => *final(self) == *old(self) && final(state)@ == old(state)@,
                Some(actor) => {
                    let own = old(self).entities.player == Some(actor);
                    exists|e1: EntityArena, r1: u64, n1: NarrativeState, rep: CombatActionReport|
                        #[trigger] attack_action_outcome(
                            old(state)@,
                            final(state)@,
                            &old(self).entities,
                            &e1,
                            old(self).rng_seed,
                            r1,
                            &old(self).map,
                            owned_narrative(own, old(self).narrative),
                            owned_narrative(own, n1),
                            target,
                            spec_attack_style(old(self), actor),
                            rep,
                        ) && (!own ==> n1 == old(self).narrative) && player_action_done(
                            old(self),
                            final(self),
                            e1,
                            r1,
                            n1,
                            final(state)@,
                            rep,
                        )
                },
            },
    {
        let actor = match state.current_actor() {
            Some(a) => a,
            None => { return; },
        };
        let style = self.attack_style_for_entity(actor);
        let own = match self.entities.player {
            Some(p) => p.0 == actor.0,
            None => false,
        };
        let report = if own {
            state.apply_attack_action(target, style, &mut self.entities, &mut self.rng_seed, &self.map, Some(&mut self.narrative))
        } else {
            state.apply_attack_action(target, style, &mut self.entities, &mut self.rng_seed, &self.map, None)
        };
        let ghost mid = *self;
        let ghost rep = report;
        self.apply_combat_report(state, report);
        assert(player_action_done(old(self), &*self, mid.entities, mid.rng_seed, mid.narrative, state@, rep));
    }

    /// The current actor of `state` attacks `target` when its weapon reaches it; nothing
    /// happens otherwise.
    pub fn combat_try_attack_target(&mut self, state: &mut CombatState, target: EntityId)
        requires
            old(self).wf(),
            old(state).wf(),
        ensures
            final(self).wf(),
            final(state).wf(),
            attack_tried(old(self), final(self), old(state)@, final(state)@, target),
    {
        let actor = match state.current_actor() {
            Some(a) => a,
            None => { return; },
        };
        let p = match self.entities.pos(actor) {
            Some(p) => p,
            None => { return; },
        };
        let tp = match self.entities.pos(target) {
            Some(p) => p,
            None => { return; },
        };
        let style = self.attack_style_for_entity(actor);
        let dist = chebyshev(p, tp);
        let in_range = match style {
            AttackStyle::Bow { range, .. } => dist >= 1 && dist <= range as i32,
            _ => dist == 1,
        };
        if !in_range {
            return;
        }
        self.combat_apply_attack(state, target);
    }
}

} // verus!
