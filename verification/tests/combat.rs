use tui_game_core::color::Color;
use tui_game_core::combat::{
    ap_from_speed, armor_class, AttackStyle, CombatAction, CombatRuleset, CombatState, EncounterOutcomePolicy,
    EncounterProfile, MELEE_HIT_TICKS, PROJECTILE_MIN_TICKS, PROJECTILE_TICKS_PER_CELL,
};
use tui_game_core::entity::{ActiveReaction, ActorStats, EntityArena, EntityId, GridPos};
use tui_game_core::item::{ItemStack, StackEquipped};
use tui_game_core::narrative::NarrativeState;
use tui_game_core::world::{MapGrid, TileTable};

fn lethal() -> EncounterProfile {
    EncounterProfile { ruleset: CombatRuleset::Lethal, outcome_policy: EncounterOutcomePolicy::Plain }
}

fn strong_arena() -> (EntityArena, EntityId, EntityId) {
    let mut arena = EntityArena::new();
    let col = Color::rgb(200, 200, 200);
    let a = arena.spawn(GridPos { x: 1, y: 1 }, 'a', col, "A".into(), true, None, None, false);
    let b = arena.spawn(GridPos { x: 2, y: 1 }, 'b', col, "B".into(), true, None, None, false);
    arena.set_stats(a, ActorStats::from_full(10, 10, 100, 5, 8));
    arena.set_stats(b, ActorStats::from_full(20, 20, 2, 0, 4));
    (arena, a, b)
}

fn lethal_state(arena: &EntityArena, a: EntityId, b: EntityId, seed: &mut u64) -> CombatState {
    let mut state = CombatState::from_participants(vec![a, b], arena, 10, 10, seed, lethal());
    state.turn_index = state.initiative.iter().position(|id| *id == a).unwrap();
    state.ap_remaining[state.turn_index] = 200;
    state
}

#[test]
fn speed_drives_ap() {
    assert_eq!(ap_from_speed(1), 1);
    assert_eq!(ap_from_speed(2), 1);
    assert_eq!(ap_from_speed(5), 2);
    assert_eq!(ap_from_speed(10), 5);
}

#[test]
fn armor_class_scales_with_agility() {
    assert_eq!(armor_class(2), 11);
    assert_eq!(armor_class(8), 14);
}

#[test]
fn attack_damage_is_deferred_not_immediate() {
    let (mut arena, a, b) = strong_arena();
    let hp_before = arena.stats(b).unwrap().hp;
    let mut seed = 7;
    let mut state = lethal_state(&arena, a, b, &mut seed);
    let report = state.apply_action(
        CombatAction::Attack { target: b, style: AttackStyle::Unarmed },
        &mut arena,
        &mut seed,
        |_, _| false,
        None,
        None,
    );
    assert!(report.applied, "attack must be applied");
    assert!(!report.end_combat, "combat must not end immediately (damage deferred)");
    assert!(report.pending_hit.is_some(), "attack must produce a pending hit");
    assert_eq!(arena.stats(b).unwrap().hp, hp_before, "HP must not change until pending hit fires");
}

#[test]
fn melee_attack_has_haptic_delay() {
    let (mut arena, a, b) = strong_arena();
    let mut seed = 42;
    let mut state = lethal_state(&arena, a, b, &mut seed);
    let report = state.apply_action(
        CombatAction::Attack { target: b, style: AttackStyle::Unarmed },
        &mut arena,
        &mut seed,
        |_, _| false,
        None,
        None,
    );
    let hit = report.pending_hit.expect("melee must produce a pending hit");
    assert_eq!(hit.delay_ticks, MELEE_HIT_TICKS);
}

#[test]
fn ranged_delay_scales_with_distance() {
    let col = Color::rgb(200, 200, 200);
    let mut arena = EntityArena::new();
    let a = arena.spawn(GridPos { x: 0, y: 0 }, 'a', col, "A".into(), true, None, None, false);
    let b = arena.spawn(GridPos { x: 5, y: 0 }, 'b', col, "B".into(), true, None, None, false);
    arena.set_stats(a, ActorStats::from_full(10, 10, 100, 0, 8));
    arena.set_stats(b, ActorStats::from_full(20, 20, 2, 0, 4));

    let mut seed = 99;
    let mut state = CombatState::from_participants(vec![a, b], &arena, 20, 20, &mut seed, lethal());
    state.turn_index = state.initiative.iter().position(|id| *id == a).unwrap();
    state.ap_remaining[state.turn_index] = 200;

    let table = TileTable::default_pack().expect("default pack must be available");
    let floor_id = table.defs.first().map_or(0, |d| d.idx);
    let map = MapGrid::filled(20, 20, floor_id, table);

    let mut narrative = NarrativeState::default();
    narrative.inventory.stacks.push(ItemStack {
        id: "arrow".into(),
        count: 5,
        equipped: Some(StackEquipped::Quiver),
    });

    let report = state.apply_action(
        CombatAction::Attack { target: b, style: AttackStyle::Bow { to_hit: 2, damage_bonus: 1, range: 10 } },
        &mut arena,
        &mut seed,
        |_, _| false,
        Some(&map),
        Some(&mut narrative),
    );

    assert!(report.applied, "ranged attack must apply");
    let hit = report.pending_hit.expect("ranged must produce pending hit");
    let expected = PROJECTILE_MIN_TICKS.max(5u8.saturating_mul(PROJECTILE_TICKS_PER_CELL));
    assert_eq!(hit.delay_ticks, expected, "delay must scale with Chebyshev dist=5");
    assert_eq!(narrative.inventory.stacks[0].count, 4, "one arrow is used up");
}

#[test]
fn attack_commits_and_consumes_ap() {
    let (mut arena, a, b) = strong_arena();
    let mut seed = 7;
    let mut state = lethal_state(&arena, a, b, &mut seed);
    let ap_before = state.ap_remaining[state.turn_index];
    let report = state.apply_action(
        CombatAction::Attack { target: b, style: AttackStyle::Unarmed },
        &mut arena,
        &mut seed,
        |_, _| false,
        None,
        None,
    );
    assert!(report.applied);
    assert!(
        state.ap_remaining[state.turn_index] < ap_before
            || state.turn_index != state.initiative.iter().position(|id| *id == a).unwrap_or(0),
        "AP must have been consumed or turn must have advanced"
    );
}

#[test]
fn a_landed_hit_records_where_the_attacker_stood() {
    let (mut arena, a, b) = strong_arena();
    arena.npc_brain[b.0 as usize].active = ActiveReaction::Flee { from: GridPos { x: 9, y: 9 } };
    let mut seed = 7;
    let mut state = lethal_state(&arena, a, b, &mut seed);
    // Try until a swing lands (each miss costs AP; a fresh turn gives more).
    for _ in 0..20 {
        state.turn_index = state.initiative.iter().position(|id| *id == a).unwrap();
        state.ap_remaining[state.turn_index] = 200;
        let report = state.apply_action(
            CombatAction::Attack { target: b, style: AttackStyle::Unarmed },
            &mut arena,
            &mut seed,
            |_, _| false,
            None,
            None,
        );
        if report.pending_hit.is_some_and(|h| h.hit) {
            break;
        }
    }
    let brain = arena.npc_brain[b.0 as usize];
    assert_eq!(brain.investigation_goal, Some(GridPos { x: 1, y: 1 }));
    assert_eq!(brain.active, ActiveReaction::Flee { from: GridPos { x: 9, y: 9 } }, "the flee latch is kept");
}
