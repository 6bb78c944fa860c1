//! Properties that tie several operations of the library together.

use vstd::prelude::*;

use crate::behavior::action::NpcAction;
use crate::behavior::ctx::BehaviorCtx;
use crate::behavior::reactions::{clock_ap, spec_fight_nearest, spec_flee_from};
use crate::behavior::threat::cheb;
use crate::combat::{spec_can_act, spec_move_cost, CombatStateView, ATTACK_COST_UNITS};
use crate::entity::{ActorStats, EntityArena, EntityId, GridPos};
use crate::game::projectile::lerp_coord;
use crate::math::abs_int;
use crate::search::lemma_first_match;
use crate::combat::{CombatState, EncounterProfile, PendingHit};
use crate::content::ContentRuntimeHooks;
use crate::game::effects::{tick_all, ActiveAreaEffect};
use crate::game::modes::GameMode;
use crate::game::pending::{fired_this_tick, pending_after_tick};
use crate::game::services::combat::{combat_finished, encounter_started, player_dead};
use crate::game::spell::{blast_targets, blasted, in_blast, lemma_blast_targets_sorted, targeted, SpellDef};
use crate::game::state::{popped, Game};
use crate::game::key_commands::{GameCommand, GameInput};
use crate::game::mode_input::{journal_handled, spell_tried, targeting_cancelled};
use crate::game::spell::SpellKind;
use crate::game::movement::{blocked_by_occupant, items_taken_upto, pickable, picked_up, player_placed, player_stepped, region_entered, step_fits};
use crate::game::state::fow_refreshed;
use crate::combat::{
    initiative_sorted, ranked_entries, rolled_encounter, spec_attack_hits, spec_roll_d20, style_to_hit, AttackStyle,
    MOVE_DIAGONAL_COST_UNITS, MOVE_ORTHOGONAL_COST_UNITS,
};
use crate::content::{ContentPack, Effect};
use crate::game::movement::{pick_step, picks_traced};
use crate::game::transfer::stacks_added;
use crate::item::{first_loose_stack, ItemStack};
use crate::narrative::{item_total, NarrativeState};
use crate::game::save::{same_entities, same_map, same_modes, same_narrative, save_applied, world_recorded, SaveGameV1, SAVE_SCHEMA_VERSION};

verus! {

/// Spending AP never raises the current actor's allowance, and leaves the turn and the
/// initiative where they were.
pub proof fn law_consume_never_raises_ap(s: CombatStateView, cost: u16)
    ensures
        s.consume(cost).turn_index == s.turn_index,
        s.consume(cost).initiative == s.initiative,
        s.consume(cost).ap_remaining.len() == s.ap_remaining.len(),
        match (s.current_ap_units(), s.consume(cost).current_ap_units()) {
            (Some(a), Some(b)) => b <= a && (a >= cost ==> b == a - cost),
            (None, None) => true,
            _ => false,
        },
{
}

/// Ending a turn hands it to a participant that can act, or leaves everything as it was
/// when nobody can.
pub proof fn law_end_turn_picks_able_actor(s: CombatStateView, arena: &EntityArena)
    requires
        s.initiative.len() > 0,
        0 <= s.turn_index,
    ensures
        s.end_turn(arena) == s || (s.end_turn(arena).current_actor() matches Some(a) && spec_can_act(arena, a)),
        s.end_turn(arena).initiative == s.initiative,
{
    let len = s.initiative.len() as int;
    let p = |k: int| spec_can_act(arena, s.initiative[(s.turn_index + k + 1) % len]);
    lemma_first_match(len, p);
    if let Some(k) = s.next_turn_offset(arena) {
        assert(p(k));
        let idx = (s.turn_index + k + 1) % len;
        assert(0 <= idx < len);
    }
}

/// A one-cell move costs the same in both directions, and only neighbours have a cost.
pub proof fn law_move_cost_symmetric(a: GridPos, b: GridPos)
    ensures
        spec_move_cost(a, b) == spec_move_cost(b, a),
        spec_move_cost(a, b) is Some <==> (a != b && abs_int(a.x - b.x) <= 1 && abs_int(a.y - b.y) <= 1),
{
}

/// A flee step always ends strictly farther from the threat than the actor stands.
pub proof fn law_flee_step_gains_distance(
    map: &crate::world::MapGrid,
    entities: &EntityArena,
    actor: EntityId,
    from: GridPos,
    threat: GridPos,
    constraints: crate::behavior::constraints::ActionConstraints,
    clock: Option<&crate::combat::CombatState>,
    nav: Option<GridPos>,
)
    ensures
        spec_flee_from(map, entities, actor, from, threat, constraints, clock, nav) matches Some(NpcAction::Step(n))
            ==> cheb(n, threat) > cheb(from, threat),
{
}

/// Fighting attacks only an adjacent, able opponent and only with the AP for it.
pub proof fn law_fight_attacks_adjacent_only(
    entities: &EntityArena,
    clock: &crate::combat::CombatState,
    actor: EntityId,
    from: GridPos,
    nav: Option<GridPos>,
)
    ensures
        spec_fight_nearest(entities, clock, actor, from, nav) matches Some(NpcAction::Attack { target, .. }) ==> {
            &&& target != actor
            &&& spec_can_act(entities, target)
            &&& entities.spec_pos(target) matches Some(tp) && cheb(from, tp) == 1
            &&& clock_ap(clock) >= ATTACK_COST_UNITS
        },
{
    lemma_fight_closest_is_candidate(entities, clock.initiative@, actor, from, clock.initiative@.len() as int);
}

proof fn lemma_fight_closest_is_candidate(entities: &EntityArena, init: Seq<EntityId>, actor: EntityId, from: GridPos, n: int)
    ensures
        crate::behavior::reactions::fight_closest_upto(entities, init, actor, from, n) matches Some(b)
            ==> crate::behavior::reactions::fight_candidate(entities, actor, b.0),
    decreases n,
{
    if n > 0 {
        lemma_fight_closest_is_candidate(entities, init, actor, from, n - 1);
    }
}

/// An encounter is only ever started by a hostile actor that is not the player.
pub proof fn law_encounter_starter_is_hostile(ctx: &BehaviorCtx, player: EntityId)
    ensures
        ctx.spec_encounter_slot(player) matches Some(j) ==> {
            &&& j != player.0
            &&& ctx.spec_should_start(EntityId(j as u32))
            &&& ctx.spec_hostile(EntityId(j as u32))
        },
{
    lemma_first_match(ctx.entities.len(), ctx.encounter_pred(player));
}

/// A projectile sits at its origin when launched and at its target when its flight time
/// is up.
pub proof fn law_projectile_endpoints(a: i32, b: i32, t: int)
    requires
        1 <= t <= 255,
    ensures
        lerp_coord(a as int, b as int, 0, t) == a,
        lerp_coord(a as int, b as int, t, t) == b,
{
    assert((a as int) * t + (b - a) * 0 == a * t) by (nonlinear_arith);
    assert((a as int) * t + (b - a) * t == b * t) by (nonlinear_arith);
    lemma_round_div_exact(a as int, t);
    lemma_round_div_exact(b as int, t);
}

proof fn lemma_round_div_exact(v: int, t: int)
    requires
        t >= 1,
    ensures
        crate::game::projectile::round_div(v * t, t) == v,
{
    if v >= 0 {
        assert(v * t >= 0) by (nonlinear_arith) requires v >= 0, t >= 1;
        assert((2 * (v * t) + t) / (2 * t) == v) by (nonlinear_arith) requires v >= 0, t >= 1;
    } else {
        assert(v * t < 0) by (nonlinear_arith) requires v < 0, t >= 1;
        assert((-2 * (v * t) + t) / (2 * t) == -v) by (nonlinear_arith) requires v < 0, t >= 1;
    }
}

/// Sequences with the same elements keep the same elements under any mapping.
pub proof fn lemma_map_keeps_multiset<A, B>(a: Seq<A>, b: Seq<A>, f: spec_fn(A) -> B)
    requires
        a.to_multiset() == b.to_multiset(),
    ensures
        a.map_values(f).to_multiset() == b.map_values(f).to_multiset(),
    decreases a.len(),
{
    broadcast use vstd::seq_lib::group_to_multiset_ensures;
    vstd::seq_lib::to_multiset_len(a);
    vstd::seq_lib::to_multiset_len(b);
    if a.len() == 0 {
        assert(b.len() == 0);
        assert(a.map_values(f) =~= b.map_values(f));
    } else {
        let x = a[0];
        assert(a.to_multiset().count(x) > 0) by {
            assert(a.contains(x));
        }
        assert(b.contains(x));
        let i = choose|i: int| 0 <= i < b.len() && b[i] == x;
        let a1 = a.drop_first();
        let b1 = b.remove(i);
        assert(a =~= a1.insert(0, x));
        vstd::seq_lib::to_multiset_insert(a1, 0, x);
        vstd::seq_lib::to_multiset_remove(b, i);
        assert(a1.to_multiset() =~= b1.to_multiset());
        lemma_map_keeps_multiset(a1, b1, f);
        assert(a.map_values(f) =~= a1.map_values(f).insert(0, f(x)));
        assert(b.map_values(f) =~= b1.map_values(f).insert(i, f(x)));
        vstd::seq_lib::to_multiset_insert(a1.map_values(f), 0, f(x));
        vstd::seq_lib::to_multiset_insert(b1.map_values(f), i, f(x));
    }
}

/// The initiative order of an encounter holds exactly the participants (each as often as
/// it was listed).
pub proof fn law_initiative_is_permutation(
    arena: &EntityArena,
    participants: Seq<EntityId>,
    seed: u64,
    order: Seq<(EntityId, i32, i32)>,
)
    requires
        order.to_multiset() == crate::combat::ranked_entries(arena, participants, seed).to_multiset(),
    ensures
        order.map_values(|t: (EntityId, i32, i32)| t.0).to_multiset() == participants.to_multiset(),
{
    let f = |t: (EntityId, i32, i32)| t.0;
    let r = crate::combat::ranked_entries(arena, participants, seed);
    lemma_map_keeps_multiset(order, r, f);
    assert(r.map_values(f) =~= participants);
}


/// An encounter started and then finished leaves the mode stack as it was, unless a lethal
/// fight left the player dead.
pub proof fn law_encounter_round_trip<H: ContentRuntimeHooks>(
    before: &Game<H>,
    mid: &Game<H>,
    after: &Game<H>,
    participants: Seq<EntityId>,
    profile: EncounterProfile,
    message: Seq<char>,
    state: CombatState,
)
    requires
        encounter_started(before, mid, participants, profile, message),
        mid.modes.stack@.last() == GameMode::Combat(state),
        combat_finished(mid, after, state@),
        !(state.profile.ruleset is Lethal && player_dead(mid)),
    ensures
        after.modes.stack@ == before.modes.stack@,
{
    let s = choose|s: CombatState|
        #![trigger crate::combat::rolled_encounter(s, &before.entities, participants, before.rng_seed, before.map.width, before.map.height, profile)]
        crate::combat::rolled_encounter(s, &before.entities, participants, before.rng_seed, before.map.width, before.map.height, profile)
            && mid.modes.stack@ == before.modes.stack@.push(GameMode::Combat(s));
    assert(mid.modes.stack@.drop_last() =~= before.modes.stack@);
}

/// One tick never adds area effects, and a permanent effect is kept.
pub proof fn law_area_effects_tick(s: Seq<ActiveAreaEffect>)
    ensures
        tick_all(s).len() <= s.len(),
        forall|k: int|
            0 <= k < s.len() && s[k].remaining_ticks == u32::MAX ==> tick_all(s).contains(#[trigger] s[k]),
    decreases s.len(),
{
    if s.len() > 0 {
        law_area_effects_tick(s.drop_last());
        let rest = tick_all(s.drop_last());
        assert forall|k: int| 0 <= k < s.len() && s[k].remaining_ticks == u32::MAX implies tick_all(s).contains(#[trigger] s[k]) by {
            if k < s.len() - 1 {
                assert(s.drop_last()[k] == s[k]);
                let i = choose|i: int| 0 <= i < rest.len() && rest[i] == s[k];
                if tick_all(s) != rest {
                    assert(tick_all(s)[i] == rest[i]);
                }
            } else {
                assert(tick_all(s).last() == s[k]);
            }
        }
    }
}

/// Counting down never creates hits: those still pending and those firing together are
/// at most those there were, and exactly as many when none had already reached 0.
pub proof fn law_pending_hits_conserved(h: Seq<PendingHit>)
    ensures
        pending_after_tick(h).len() + fired_this_tick(h).len() <= h.len(),
        (forall|k: int| 0 <= k < h.len() ==> #[trigger] h[k].delay_ticks > 0) ==> pending_after_tick(h).len()
            + fired_this_tick(h).len() == h.len(),
    decreases h.len(),
{
    if h.len() > 0 {
        law_pending_hits_conserved(h.drop_last());
        assert forall|k: int| 0 <= k < h.drop_last().len() implies #[trigger] h.drop_last()[k] == h[k] by {}
    }
}

/// A fireball never touches its caster: after a blast the player's slot is unchanged.
pub proof fn law_fireball_spares_player(
    before: &EntityArena,
    after: &EntityArena,
    target: GridPos,
    d: SpellDef,
    seed: u64,
    pid: EntityId,
)
    requires
        before.wf(),
        before.player == Some(pid),
        (pid.0 as int) < before.len(),
        blasted(before, after, blast_targets(before, target, d.aoe_radius as int, before.len()), d, seed),
    ensures
        after.same_slot(before, pid.0 as int),
{
    let t = blast_targets(before, target, d.aoe_radius as int, before.len());
    lemma_blast_targets_sorted(before, target, d.aoe_radius as int, before.len());
    if targeted(t, pid.0 as int) {
        let k = choose|k: int| 0 <= k < t.len() && t[k].0 == pid.0;
        assert(in_blast(before, target, d.aoe_radius as int, t[k].0 as int));
        assert(t[k] == pid);
    }
}

/// Leaving spell targeting, by casting or by cancelling, always closes the targeting
/// mode: the stack afterwards is the one beneath it.
pub proof fn law_targeting_always_closes<H: ContentRuntimeHooks>(
    before: &Game<H>,
    after: &Game<H>,
    spell: SpellKind,
    cursor: GridPos,
)
    requires
        spell_tried(before, after, spell, cursor) || targeting_cancelled(before, after),
    ensures
        after.modes.stack@ == popped(before.modes.stack@),
{
}

/// The last index of a list of `n` entries (0 for an empty list).
pub open spec fn last_index(n: int) -> int {
    if n > 0 { n - 1 } else { 0 }
}

/// Browsing the journal keeps its cursor on the quest list: from a cursor on it (or at 0
/// for an empty list), the list keys and pointer picks leave it there.
pub proof fn law_journal_cursor_stays_in_list<H: ContentRuntimeHooks>(
    before: &Game<H>,
    after: &Game<H>,
    ev: GameInput,
    picked: Option<usize>,
)
    requires
        journal_handled(before, after, ev, picked),
        ev != GameInput::Command(GameCommand::Back),
        before.modes.stack@.len() > 0,
        before.modes.stack@.last() matches GameMode::Journal { quest_cursor } && quest_cursor <= last_index(
            before.narrative.quest_journal@.len() as int,
        ),
    ensures
        after.modes.stack@.len() > 0,
        after.modes.stack@.last() matches GameMode::Journal { quest_cursor } && quest_cursor <= last_index(
            after.narrative.quest_journal@.len() as int,
        ),
{
}

/// A step the player takes ends on the cell it aimed at: on the map, on a tile that does
/// not block movement, and not on a cell another blocking entity holds.
pub proof fn law_player_step_lands_on_open_cell<H: ContentRuntimeHooks>(
    before: &Game<H>,
    after: &Game<H>,
    dx: i32,
    dy: i32,
)
    requires
        before.wf(),
        step_fits(before, dx, dy),
        player_stepped(before, after, dx, dy, true),
    ensures
        after.entities.player == before.entities.player,
        after.map == before.map,
        after.spec_player_pos() matches Some(q) && {
            &&& before.spec_player_pos() matches Some(p) && q.x == p.x + dx && q.y == p.y + dy
            &&& after.map.spec_in_bounds(q.x as int, q.y as int)
            &&& !after.map.spec_blocks_movement(q.x as int, q.y as int)
            &&& !blocked_by_occupant(&after.entities, after.entities.player->0, q.x, q.y)
        },
{
    let pid = before.entities.player->0;
    let p = before.spec_player_pos()->0;
    let to = GridPos { x: (p.x + dx) as i32, y: (p.y + dy) as i32 };
    let (g1, g2, g3) = choose|g1: Game<H>, g2: Game<H>, g3: Game<H>|
        player_placed(before, &g1, pid, to) && picked_up(&g1, &g2, pid) && region_entered(&g2, &g3, to.x, to.y)
            && fow_refreshed(&g3, after);
    assert(g1.entities.spec_pos(pid) == Some(to));
    assert(g2.entities.spec_pos(pid) == Some(to)) by {
        if !(forall|j: int| 0 <= j < g1.entities.len() ==> !#[trigger] pickable(&g1.entities, pid, to, j)) {
            assert(items_taken_upto(&g1.entities, &g2.entities, pid, to, g1.entities.len() as int));
            assert(!pickable(&g1.entities, pid, to, pid.0 as int));
            assert(g2.entities.same_slot(&g1.entities, pid.0 as int));
        }
    }
    assert(g3.entities == g2.entities);
    assert(after.entities == g3.entities);
    if blocked_by_occupant(&after.entities, pid, to.x, to.y) {
        let j = choose|j: int|
            0 <= j < after.entities.len() && #[trigger] after.entities.occupies(j, to.x, to.y) && j != pid.0 as int
                && after.entities.blocks_movement@[j];
        if !(forall|k: int| 0 <= k < g1.entities.len() ==> !#[trigger] pickable(&g1.entities, pid, to, k)) {
            assert(items_taken_upto(&g1.entities, &g2.entities, pid, to, g1.entities.len() as int));
            if pickable(&g1.entities, pid, to, j) {
                assert(g2.entities.slot_is_default(j));
            } else {
                assert(g2.entities.same_slot(&g1.entities, j));
            }
        }
        assert(g1.entities.same_slot(&before.entities, j) || j == pid.0 as int);
        assert(before.entities.occupies(j, to.x, to.y));
        assert(blocked_by_occupant(&before.entities, pid, to.x, to.y));
    }
}

/// Taking up a save of the current layout that records a game gives that game's world and
/// screens back: the same map, entities, quest state, generator state and open screens.
pub proof fn law_save_round_trip<H: ContentRuntimeHooks>(
    g: &Game<H>,
    s: SaveGameV1,
    after: &Game<H>,
    r: Result<(), String>,
)
    requires
        s.schema_version == SAVE_SCHEMA_VERSION,
        world_recorded(g, s.world),
        same_modes(g.modes, s.modes),
        save_applied(g, after, s, r),
    ensures
        r is Ok,
        same_map(g.map, after.map),
        same_entities(g.entities, after.entities),
        same_narrative(g.narrative, after.narrative),
        after.rng_seed == g.rng_seed,
        same_modes(g.modes, after.modes),
{
    let mid = choose|mid: Game<H>|
        {
            &&& mid == (Game {
                map: s.world.map,
                entities: s.world.entities,
                narrative: s.world.narrative,
                rng_seed: s.world.rng_seed,
                modes: s.modes,
                active_projectiles: mid.active_projectiles,
                pending_hits: mid.pending_hits,
                active_area_effects: mid.active_area_effects,
                fireball_cooldown_ticks: 0,
                explored: mid.explored,
                visible: mid.visible,
                ..*g
            })
            &&& mid.active_projectiles@.len() == 0
            &&& mid.pending_hits@.len() == 0
            &&& mid.active_area_effects@.len() == 0
            &&& mid.explored@ == crate::game::save::resized(g.explored@, s.world.map.width as int * s.world.map.height as int)
            &&& mid.visible@ == crate::game::save::resized(g.visible@, s.world.map.width as int * s.world.map.height as int)
            &&& fow_refreshed(&mid, after)
        };
    assert(after.map == mid.map && after.entities == mid.entities && after.narrative == mid.narrative);
}

/// A step to one of the eight neighbours costs [`MOVE_DIAGONAL_COST_UNITS`] when it
/// changes both coordinates and [`MOVE_ORTHOGONAL_COST_UNITS`] when it changes one; no
/// other move has a cost.
pub proof fn law_move_cost_by_kind_of_step(from: GridPos, to: GridPos)
    ensures
        abs_int(to.x - from.x) == 1 && abs_int(to.y - from.y) == 1 ==> spec_move_cost(from, to) == Some(14u16),
        abs_int(to.x - from.x) + abs_int(to.y - from.y) == 1 ==> spec_move_cost(from, to) == Some(10u16),
        abs_int(to.x - from.x) > 1 || abs_int(to.y - from.y) > 1 || from == to ==> spec_move_cost(from, to) is None,
        MOVE_DIAGONAL_COST_UNITS == 14 && MOVE_ORTHOGONAL_COST_UNITS == 10,
{
}

/// An attack lands exactly when the d20 plus half the attacker's strength plus the
/// weapon's to-hit reaches ten plus half the target's agility; the attacker's own agility
/// plays no part.
pub proof fn law_attack_hits_against_target_agility(
    seed: u64,
    attacker: ActorStats,
    target: ActorStats,
    style: AttackStyle,
    other_agility: u16,
)
    ensures
        spec_attack_hits(seed, attacker, target, style) == (spec_roll_d20(seed) + attacker.strength as int / 2 + style_to_hit(style)
            >= 10 + target.agility as int / 2),
        spec_attack_hits(seed, attacker, target, style) == spec_attack_hits(
            seed,
            ActorStats { agility: other_agility, ..attacker },
            target,
            style,
        ),
{
}

/// The initiative of an encounter lists its participants by non-increasing total (the d20
/// rolled for the participant plus half its speed), ties broken by higher speed, then by
/// lower id.
pub proof fn law_initiative_highest_total_first(
    s: CombatState,
    arena: &EntityArena,
    participants: Seq<EntityId>,
    seed: u64,
    w: u16,
    h: u16,
    profile: EncounterProfile,
)
    requires
        rolled_encounter(s, arena, participants, seed, w, h, profile),
    ensures
        exists|order: Seq<(EntityId, i32, i32)>|
            #![trigger order.to_multiset()]
            {
                &&& order.to_multiset() == ranked_entries(arena, participants, seed).to_multiset()
                &&& s.initiative@ == order.map_values(|t: (EntityId, i32, i32)| t.0)
                &&& forall|i: int, j: int|
                    0 <= i < j < order.len() ==> {
                        &&& #[trigger] order[i].1 >= #[trigger] order[j].1
                        &&& order[i].1 == order[j].1 ==> order[i].2 >= order[j].2
                        &&& order[i].1 == order[j].1 && order[i].2 == order[j].2 ==> order[i].0.0 <= order[j].0.0
                    }
            },
{
    let order = choose|order: Seq<(EntityId, i32, i32)>|
        {
            &&& initiative_sorted(order)
            &&& order.to_multiset() == ranked_entries(arena, participants, seed).to_multiset()
            &&& s.initiative@ == order.map_values(|t: (EntityId, i32, i32)| t.0)
        };
    assert forall|i: int, j: int| 0 <= i < j < order.len() implies {
        &&& #[trigger] order[i].1 >= #[trigger] order[j].1
        &&& order[i].1 == order[j].1 ==> order[i].2 >= order[j].2
        &&& order[i].1 == order[j].1 && order[i].2 == order[j].2 ==> order[i].0.0 <= order[j].0.0
    } by {
        assert(crate::combat::ranks_at_least(order[i], order[j]));
    }
}

/// The quest an effect names, if any.
pub open spec fn effect_quest(e: Effect) -> Option<Seq<char>> {
    match e {
        Effect::SetQuestStage { quest, .. } => Some(quest@),
        Effect::AddQuestStage { quest, .. } => Some(quest@),
        Effect::JournalAppend { quest, .. } => Some(quest@),
        Effect::JournalSetStatus { quest, .. } => Some(quest@),
        _ => None,
    }
}

/// The item an effect names, if any.
pub open spec fn effect_item(e: Effect) -> Option<Seq<char>> {
    match e {
        Effect::GiveItem(id) => Some(id@),
        Effect::TakeItem(id) => Some(id@),
        _ => None,
    }
}

/// `id` is the id of a quest the pack defines.
pub open spec fn quest_defined(p: &ContentPack, id: Seq<char>) -> bool {
    exists|j: int| 0 <= j < p.quest_defs@.len() && #[trigger] p.quest_defs@[j].id@ == id
}

/// `id` is the id of an item the pack defines.
pub open spec fn item_defined(p: &ContentPack, id: Seq<char>) -> bool {
    exists|j: int| 0 <= j < p.item_defs@.len() && #[trigger] p.item_defs@[j].id@ == id
}

/// In a pack that passes validation, every quest and item that a dialogue effect names (on
/// a node or on a choice) is one the pack defines.
pub proof fn law_valid_pack_effects_name_defined_quests_and_items(p: &ContentPack, t: int, n: int, c: int, k: int)
    requires
        p.spec_valid(),
        0 <= t < p.dialogues@.len(),
        0 <= n < p.dialogues@[t].1.nodes@.len(),
    ensures
        0 <= k < p.dialogues@[t].1.nodes@[n].effects@.len() ==> {
            let e = p.dialogues@[t].1.nodes@[n].effects@[k];
            &&& effect_quest(e) matches Some(q) ==> quest_defined(p, q)
            &&& effect_item(e) matches Some(i) ==> item_defined(p, i)
        },
        0 <= c < p.dialogues@[t].1.nodes@[n].choices@.len() && 0 <= k < p.dialogues@[t].1.nodes@[n].choices@[c].effects@.len() ==> {
            let e = p.dialogues@[t].1.nodes@[n].choices@[c].effects@[k];
            &&& effect_quest(e) matches Some(q) ==> quest_defined(p, q)
            &&& effect_item(e) matches Some(i) ==> item_defined(p, i)
        },
{
    let tree = p.dialogues@[t].1;
    assert(p.tree_ok(tree));
    assert(p.node_ok(tree.nodes@[n], tree.nodes@.len() as int));
    assert(p.tree_choices_ok(tree));
    assert(p.node_choices_ok(tree.nodes@[n]));
    if 0 <= k < tree.nodes@[n].effects@.len() {
        assert(p.effect_ok(tree.nodes@[n].effects@[k]));
    }
    if 0 <= c < tree.nodes@[n].choices@.len() && 0 <= k < tree.nodes@[n].choices@[c].effects@.len() {
        assert(p.choice_refs_ok(tree.nodes@[n].choices@[c]));
        assert(p.effect_ok(tree.nodes@[n].choices@[c].effects@[k]));
    }
}

/// What stack `x` counts toward the total of `id`.
pub open spec fn stack_share(x: ItemStack, id: Seq<char>) -> int {
    if x.id@ == id { x.count as int } else { 0 }
}

proof fn lemma_item_total_push(s: Seq<ItemStack>, x: ItemStack, id: Seq<char>)
    ensures
        item_total(s.push(x), id) == item_total(s, id) + stack_share(x, id),
{
    assert(s.push(x).drop_last() =~= s);
}

proof fn lemma_item_total_update(s: Seq<ItemStack>, i: int, x: ItemStack, id: Seq<char>)
    requires
        0 <= i < s.len(),
    ensures
        item_total(s.update(i, x), id) == item_total(s, id) - stack_share(s[i], id) + stack_share(x, id),
    decreases s.len(),
{
    if i == s.len() - 1 {
        assert(s.update(i, x).drop_last() =~= s.drop_last());
    } else {
        lemma_item_total_update(s.drop_last(), i, x, id);
        assert(s.update(i, x).drop_last() =~= s.drop_last().update(i, x));
    }
}

proof fn lemma_stack_within_total(s: Seq<ItemStack>, i: int, id: Seq<char>)
    requires
        0 <= i < s.len(),
    ensures
        stack_share(s[i], id) <= item_total(s, id),
    decreases s.len(),
{
    crate::narrative::lemma_item_total_nonneg(s.drop_last(), id);
    if i < s.len() - 1 {
        lemma_stack_within_total(s.drop_last(), i, id);
    }
}

/// Adding `count` of `id` to an inventory raises the total of `id` by `count` (when that
/// stays within `u32`) and leaves the total of every other id as it was.
pub proof fn law_stacks_added_totals(before: Seq<ItemStack>, after: Seq<ItemStack>, id: Seq<char>, count: u32, other: Seq<char>)
    requires
        stacks_added(before, after, id, count),
    ensures
        item_total(before, id) + count <= u32::MAX ==> item_total(after, id) == item_total(before, id) + count,
        other != id ==> item_total(after, other) == item_total(before, other),
{
    match first_loose_stack(before, id) {
        Some(i) => {
            assert(after =~= before.update(i, after[i]));
            lemma_item_total_update(before, i, after[i], id);
            lemma_item_total_update(before, i, after[i], other);
            lemma_stack_within_total(before, i, id);
        },
        None => {
            assert(after =~= before.push(after.last()));
            lemma_item_total_push(before, after.last(), id);
            lemma_item_total_push(before, after.last(), other);
        },
    }
}

/// Total count of `id` over the items among the first `k` slots of `e` that `player`
/// picks up on `p`.
pub open spec fn picked_total(e: &EntityArena, player: EntityId, p: GridPos, id: Seq<char>, k: int) -> int
    decreases k,
{
    if k <= 0 {
        0
    } else {
        picked_total(e, player, p, id, k - 1) + if crate::game::movement::pickable(e, player, p, k - 1) {
            stack_share(e.item@[k - 1]->0, id)
        } else {
            0
        }
    }
}

proof fn lemma_picked_total_grows(e: &EntityArena, player: EntityId, p: GridPos, id: Seq<char>, j: int, k: int)
    requires
        0 <= j <= k,
    ensures
        picked_total(e, player, p, id, j) <= picked_total(e, player, p, id, k),
    decreases k - j,
{
    if j < k {
        lemma_picked_total_grows(e, player, p, id, j, k - 1);
    }
}

/// A pickup adds the picked stacks to the inventory: when the item hook leaves the
/// narrative it is handed as it is, the total of every item id afterwards is the total
/// before plus the counts of the picked stacks of that id (as long as it stays within
/// `u32`).
pub proof fn law_pickup_adds_picked_stacks(
    e: &EntityArena,
    player: EntityId,
    p: GridPos,
    ns: Seq<NarrativeState>,
    hs: Seq<NarrativeState>,
    id: Seq<char>,
)
    requires
        picks_traced(e, player, p, ns, hs, e.len() as int),
        forall|j: int| 0 <= j < e.len() ==> #[trigger] hs[j] == ns[j + 1],
        item_total(ns[0].inventory.stacks@, id) + picked_total(e, player, p, id, e.len() as int) <= u32::MAX,
    ensures
        item_total(ns.last().inventory.stacks@, id) == item_total(ns[0].inventory.stacks@, id) + picked_total(
            e,
            player,
            p,
            id,
            e.len() as int,
        ),
{
    lemma_pickup_prefix(e, player, p, ns, hs, id, e.len() as int);
}

proof fn lemma_pickup_prefix(
    e: &EntityArena,
    player: EntityId,
    p: GridPos,
    ns: Seq<NarrativeState>,
    hs: Seq<NarrativeState>,
    id: Seq<char>,
    k: int,
)
    requires
        0 <= k <= e.len(),
        picks_traced(e, player, p, ns, hs, e.len() as int),
        forall|j: int| 0 <= j < e.len() ==> #[trigger] hs[j] == ns[j + 1],
        item_total(ns[0].inventory.stacks@, id) + picked_total(e, player, p, id, e.len() as int) <= u32::MAX,
    ensures
        item_total(ns[k].inventory.stacks@, id) == item_total(ns[0].inventory.stacks@, id) + picked_total(e, player, p, id, k),
    decreases k,
{
    if k > 0 {
        let j = k - 1;
        lemma_pickup_prefix(e, player, p, ns, hs, id, j);
        assert(pick_step(e, player, p, j, ns[j], hs[j], ns[j + 1]));
        assert(hs[j] == ns[j + 1]);
        if crate::game::movement::pickable(e, player, p, j) {
            let st = e.item@[j]->0;
            lemma_picked_total_grows(e, player, p, id, k, e.len() as int);
            crate::narrative::lemma_item_total_nonneg(ns[0].inventory.stacks@, id);
            law_stacks_added_totals(ns[j].inventory.stacks@, hs[j].inventory.stacks@, st.id@, st.count, id);
        }
    }
}

} // verus!
