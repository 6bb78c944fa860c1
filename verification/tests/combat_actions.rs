use tui_game_core::color::Color;
use tui_game_core::combat::{AttackStyle, CombatRuleset, CombatState, EncounterOutcomePolicy, EncounterProfile};
use tui_game_core::content::NoopContentRuntimeHooks;
use tui_game_core::entity::{ActorStats, EntityArena, EntityId, GridPos};
use tui_game_core::game::key_commands::{default_game_key_map, GameCommand, GameInput};
use tui_game_core::game::modes::{GameMode, GameModeStack};
use tui_game_core::game::state::Game;
use tui_game_core::game_content::content_pack;
use tui_game_core::item::{EquipSlot, ItemStack, StackEquipped};
use tui_game_core::narrative::NarrativeState;
use tui_game_core::world::{MapGrid, TileTable, FLOOR_TILE};

fn pos(x: i32, y: i32) -> GridPos {
    GridPos { x, y }
}

/// A 20×20 open field with the player at (5, 5) and a wolf at `wolf_at`.
fn arena(wolf_at: GridPos) -> (Game<NoopContentRuntimeHooks>, EntityId, EntityId) {
    let map = MapGrid::filled(20, 20, FLOOR_TILE, TileTable::default_pack().unwrap());
    let content = content_pack();
    let mut entities = EntityArena::new();
    let player = entities.spawn(pos(5, 5), '@', Color::rgb(255, 235, 180), "You".to_string(), false, None, None, false);
    entities.set_player(player);
    entities.set_stats(player, ActorStats::from_full(24, 24, 7, 6, 20));
    let wolf = entities.spawn(
        wolf_at,
        'w',
        Color::rgb(200, 200, 200),
        "wolf".to_string(),
        true,
        Some("wolf".to_string()),
        None,
        false,
    );
    entities.set_stats(wolf, content.blueprint_stats("wolf").unwrap());
    let mut modes = GameModeStack::new();
    modes.push(GameMode::Exploration);
    let game = Game {
        modes,
        map,
        entities,
        explored: Vec::new(),
        visible: Vec::new(),
        narrative: NarrativeState::new(),
        content,
        hooks: NoopContentRuntimeHooks,
        rng_seed: 9,
        log: Vec::new(),
        menu_items: vec!["Start game", "Quit"],
        quit_requested: false,
        debug_overlay: false,
        surface_tick: 0,
        player_walk_path: Vec::new(),
        player_walk_goal: None,
        player_walk_tick_cooldown: 0,
        npc_combat_ai_tick_cooldown: 0,
        npc_exploration_ai_tick_cooldown: 0,
        pending_forced_dialogue: None,
        pending_player_action: None,
        turn_clock: None,
        key_map: default_game_key_map(),
        active_projectiles: Vec::new(),
        pending_hits: Vec::new(),
        active_area_effects: Vec::new(),
        fireball_cooldown_ticks: 0,
    };
    (game, player, wolf)
}

/// An encounter of the player and the wolf in which the player acts with `ap` units.
fn player_turn(game: &Game<NoopContentRuntimeHooks>, player: EntityId, wolf: EntityId, ap: u16) -> CombatState {
    let mut rng = 1;
    let mut cs = CombatState::from_participants(
        vec![player, wolf],
        &game.entities,
        game.map.width,
        game.map.height,
        &mut rng,
        EncounterProfile { ruleset: CombatRuleset::Lethal, outcome_policy: EncounterOutcomePolicy::Plain },
    );
    cs.turn_index = cs.initiative.iter().position(|id| *id == player).unwrap();
    cs.ap_remaining[cs.turn_index] = ap;
    cs
}

fn wield(game: &mut Game<NoopContentRuntimeHooks>, id: &str) {
    game.narrative.inventory.stacks.push(ItemStack {
        id: id.to_string(),
        count: 1,
        equipped: Some(StackEquipped::Wear(EquipSlot::Weapon)),
    });
}

fn quiver(game: &mut Game<NoopContentRuntimeHooks>, arrows: u32) {
    game.narrative.inventory.stacks.push(ItemStack {
        id: "arrow".to_string(),
        count: arrows,
        equipped: Some(StackEquipped::Quiver),
    });
}

#[test]
fn attack_style_follows_the_weapon_hand() {
    let (mut game, player, wolf) = arena(pos(6, 5));
    assert_eq!(game.attack_style_for_entity(player), AttackStyle::Unarmed);
    assert_eq!(game.attack_style_for_entity(wolf), AttackStyle::Unarmed);
    wield(&mut game, "iron_sword");
    assert_eq!(game.attack_style_for_entity(player), AttackStyle::Melee { to_hit: 1, damage_bonus: 2 });
    assert_eq!(game.attack_style_for_entity(wolf), AttackStyle::Unarmed);
}

#[test]
fn bow_needs_arrows_in_the_quiver() {
    let (mut game, player, _) = arena(pos(6, 5));
    wield(&mut game, "hunting_bow");
    assert_eq!(game.attack_style_for_entity(player), AttackStyle::Unarmed);
    quiver(&mut game, 3);
    assert_eq!(game.attack_style_for_entity(player), AttackStyle::Bow { to_hit: 0, damage_bonus: 1, range: 8 });
}

#[test]
fn basic_attack_reach_depends_on_the_weapon() {
    let (mut game, player, wolf) = arena(pos(6, 6));
    let cs = player_turn(&game, player, wolf, 100);
    assert!(game.combat_player_can_basic_attack_target(&cs, player, wolf));
    game.entities.set_pos(wolf, pos(9, 5));
    assert!(!game.combat_player_can_basic_attack_target(&cs, player, wolf));
    wield(&mut game, "hunting_bow");
    quiver(&mut game, 2);
    assert!(game.combat_player_can_basic_attack_target(&cs, player, wolf));
    game.entities.set_pos(wolf, pos(14, 5));
    assert!(!game.combat_player_can_basic_attack_target(&cs, player, wolf));
    // Nobody attacks themself: distance zero is out of every reach.
    assert!(!game.combat_player_can_basic_attack_target(&cs, player, player));
}

#[test]
fn combat_step_moves_the_current_actor() {
    let (mut game, player, wolf) = arena(pos(10, 10));
    let mut cs = player_turn(&game, player, wolf, 100);
    game.combat_try_move(&mut cs, 1, 0);
    assert_eq!(game.entities.pos(player), Some(pos(6, 5)));
    assert!(cs.ap_remaining[cs.turn_index] < 100 || cs.current_actor() != Some(player));
}

#[test]
fn combat_step_onto_an_occupied_cell_is_refused() {
    let (mut game, player, wolf) = arena(pos(6, 5));
    let mut cs = player_turn(&game, player, wolf, 100);
    game.combat_try_move(&mut cs, 1, 0);
    assert_eq!(game.entities.pos(player), Some(pos(5, 5)));
    assert_eq!(game.log.last().map(|s| s.as_str()), Some("Movement target is blocked."));
}

#[test]
fn out_of_reach_attack_does_nothing() {
    let (mut game, player, wolf) = arena(pos(8, 5));
    let mut cs = player_turn(&game, player, wolf, 100);
    let hp = game.entities.stats(wolf).unwrap().hp;
    game.combat_try_attack_target(&mut cs, wolf);
    assert!(game.pending_hits.is_empty());
    assert!(game.log.is_empty());
    assert_eq!(cs.ap_remaining[cs.turn_index], 100);
    assert_eq!(game.entities.stats(wolf).unwrap().hp, hp);
}

#[test]
fn adjacent_attack_is_committed_and_paid_for() {
    let (mut game, player, wolf) = arena(pos(6, 5));
    let mut cs = player_turn(&game, player, wolf, 100);
    game.combat_try_attack_target(&mut cs, wolf);
    assert_eq!(game.pending_hits.len(), 1, "the attack is committed, its damage deferred");
    let still_player = cs.current_actor() == Some(player);
    assert!(!still_player || cs.ap_remaining[cs.turn_index] < 100);
}

#[test]
fn bow_shot_uses_an_arrow() {
    let (mut game, player, wolf) = arena(pos(9, 5));
    wield(&mut game, "hunting_bow");
    quiver(&mut game, 2);
    let mut cs = player_turn(&game, player, wolf, 100);
    game.combat_try_attack_target(&mut cs, wolf);
    assert_eq!(game.pending_hits.len(), 1);
    assert_eq!(game.narrative.quiver_count_for_ranged("arrow"), 1);
}

fn in_fight(game: &mut Game<NoopContentRuntimeHooks>, cs: CombatState) {
    game.modes.push(GameMode::Combat(cs));
}

fn top_combat(game: &Game<NoopContentRuntimeHooks>) -> Option<&CombatState> {
    match game.modes.current() {
        Some(GameMode::Combat(cs)) => Some(cs),
        _ => None,
    }
}

#[test]
fn combat_keys_step_pass_and_pan() {
    let (mut game, player, wolf) = arena(pos(10, 10));
    let cs = player_turn(&game, player, wolf, 100);
    in_fight(&mut game, cs);
    // A step key moves the current actor and keeps the encounter on top, updated.
    assert_eq!(game.handle_combat(GameInput::Command(GameCommand::StepEast), false), None);
    assert_eq!(game.entities.pos(player), Some(pos(6, 5)));
    let ap_after_step = top_combat(&game).map(|c| c.ap_remaining[c.turn_index]);
    assert!(ap_after_step.is_some_and(|ap| ap < 100));
    // When the map is larger than the view, the same key shifts the view instead.
    assert_eq!(game.handle_combat(GameInput::Command(GameCommand::StepSouth), true), Some((0, 1)));
    assert_eq!(game.entities.pos(player), Some(pos(6, 5)));
    // Confirm ends the player's turn: the wolf acts next.
    assert_eq!(game.handle_combat(GameInput::Command(GameCommand::Confirm), false), None);
    assert_eq!(top_combat(&game).and_then(|c| c.current_actor()), Some(wolf));
    // The debug key only flips the overlay.
    game.handle_combat(GameInput::Command(GameCommand::ToggleDebug), false);
    assert!(game.debug_overlay);
}

#[test]
fn combat_back_leaves_the_fight() {
    let (mut game, player, wolf) = arena(pos(10, 10));
    let cs = player_turn(&game, player, wolf, 100);
    in_fight(&mut game, cs);
    game.handle_combat(GameInput::Command(GameCommand::Back), false);
    assert!(top_combat(&game).is_none());
    assert!(game.log.iter().any(|l| l == "You leave the fight."));
}
