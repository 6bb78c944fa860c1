use tui_game_core::keymap::poll_interval_ms;
use tui_game_core::color::Color;
use tui_game_core::combat::{
    ATTACK_COST_UNITS, CombatRuleset, CombatState, EncounterOutcomePolicy, EncounterProfile, PendingHit,
};
use tui_game_core::content::NoopContentRuntimeHooks;
use tui_game_core::entity::{ActorStats, EntityArena, EntityId, GridPos};
use tui_game_core::game::effects::{
    frame_area_effects, tick_area_effects, ActiveAreaEffect, AreaEffect, AreaEffectKind,
};
use tui_game_core::game::hud::{command_footer, fireball_status_line, mode_heading};
use tui_game_core::game::status::{combat_status_lines, combat_target_lines, HoverTarget};
use tui_game_core::game::key_commands::{default_game_key_map, key_layer_for_game, GameCommand, GameInput, KeyMapLayer};
use tui_game_core::input::{InputEvent, Key, KeyChord, MouseButton};
use tui_game_core::game::modes::{GameMode, GameModeStack};
use tui_game_core::game::services::behavior::{in_encounter, tick_npcs, turn_based_active};
use tui_game_core::game::services::combat::{
    detect_hostile_encounters, finish_combat, is_actively_hostile_to_player, start_combat_encounter,
    toggle_turn_based,
};
use tui_game_core::game::services::combat_ai::step_npc_combat_ai;
use tui_game_core::game::frame::{InputBatch, PointerHit};
use tui_game_core::game::save::{SaveGameV1, WorldSnapshot, SAVE_SCHEMA_VERSION};
use tui_game_core::game::spell::{cast_spell, def, SpellKind};
use tui_game_core::game::state::Game;
use tui_game_core::game_content::content_pack;
use tui_game_core::item::ItemStack;
use tui_game_core::narrative::NarrativeState;
use tui_game_core::world::{MapGrid, TileTable, FLOOR_TILE, WALL_TILE};

fn pos(x: i32, y: i32) -> GridPos {
    GridPos { x, y }
}

fn spawn_actor(entities: &mut EntityArena, kind: &str, at: GridPos, stats: ActorStats) -> EntityId {
    let id = entities.spawn(
        at,
        'n',
        Color::rgb(200, 200, 200),
        kind.to_string(),
        true,
        Some(kind.to_string()),
        None,
        false,
    );
    entities.set_stats(id, stats);
    id
}

/// A 30×30 open field with the player at (5, 5), a wolf at (20, 20) and a trainer at (5, 12).
fn field() -> (Game<NoopContentRuntimeHooks>, EntityId, EntityId, EntityId) {
    let map = MapGrid::filled(30, 30, FLOOR_TILE, TileTable::default_pack().unwrap());
    let content = content_pack();
    let mut entities = EntityArena::new();
    let player = entities.spawn(
        pos(5, 5),
        '@',
        Color::rgb(255, 235, 180),
        "You".to_string(),
        false,
        None,
        None,
        false,
    );
    entities.set_player(player);
    entities.set_stats(player, ActorStats::from_full(24, 24, 7, 6, 20));
    let wolf = spawn_actor(&mut entities, "wolf", pos(20, 20), content.blueprint_stats("wolf").unwrap());
    let trainer =
        spawn_actor(&mut entities, "trainer", pos(5, 12), content.blueprint_stats("trainer").unwrap());
    let mut modes = GameModeStack::new();
    modes.push(GameMode::Exploration);
    let game = Game {
        modes,
        map,
        entities,
        explored: Vec::new(),
        visible: Vec::new(),
        narrative: NarrativeState::new(),
        content,
        hooks: NoopContentRuntimeHooks,
        rng_seed: 2,
        log: Vec::new(),
        menu_items: vec!["Start game", "Quit"],
        quit_requested: false,
        debug_overlay: false,
        surface_tick: 0,
        player_walk_path: Vec::new(),
        player_walk_goal: None,
        player_walk_tick_cooldown: 0,
        npc_combat_ai_tick_cooldown: 0,
        npc_exploration_ai_tick_cooldown: 0,
        pending_forced_dialogue: None,
        pending_player_action: None,
        turn_clock: None,
        key_map: default_game_key_map(),
        active_projectiles: Vec::new(),
        pending_hits: Vec::new(),
        active_area_effects: Vec::new(),
        fireball_cooldown_ticks: 0,
    };
    (game, player, wolf, trainer)
}

fn last_log(game: &Game<NoopContentRuntimeHooks>) -> &str {
    game.log.last().map(|s| s.as_str()).unwrap_or("")
}

#[test]
fn fireball_damages_only_entities_in_blast() {
    let (mut game, player, wolf, trainer) = field();
    game.entities.set_pos(wolf, pos(7, 5));
    let wolf_hp = game.entities.stats(wolf).unwrap().hp;
    let trainer_hp = game.entities.stats(trainer).unwrap().hp;
    let player_hp = game.entities.stats(player).unwrap().hp;
    assert_eq!(cast_spell(&mut game, SpellKind::Fireball, pos(7, 5)), Ok(()));
    // Damage is 3 plus a roll below 5.
    let after = game.entities.stats(wolf).map(|s| s.hp).unwrap_or(0);
    assert!(after < wolf_hp);
    assert!(wolf_hp - after >= 3 && wolf_hp - after <= 7 || !game.entities.is_alive(wolf));
    // The trainer stands 7 cells from the blast centre (radius 5); the caster is never hit.
    assert_eq!(game.entities.stats(trainer).unwrap().hp, trainer_hp);
    assert_eq!(game.entities.stats(player).unwrap().hp, player_hp);
    assert!(last_log(&game).starts_with("Fireball "));
}

#[test]
fn fireball_with_no_target_says_so_and_starts_cooldown() {
    let (mut game, _, _, _) = field();
    assert_eq!(cast_spell(&mut game, SpellKind::Fireball, pos(15, 5)), Ok(()));
    assert_eq!(last_log(&game), "Fireball erupts — no targets hit.");
    assert_eq!(game.fireball_cooldown_ticks, def(SpellKind::Fireball).cooldown_ticks);
    assert_eq!(game.active_area_effects.len(), 1);
    let fx = game.active_area_effects[0];
    assert_eq!(fx.effect.center, pos(15, 5));
    assert_eq!(fx.effect.kind, AreaEffectKind::Fire);
    assert_eq!(fx.remaining_ticks, 120);
    assert_eq!(
        cast_spell(&mut game, SpellKind::Fireball, pos(15, 5)),
        Err("Spell is still on cooldown.")
    );
}

#[test]
fn fireball_rejects_out_of_range_target() {
    let (mut game, _, _, _) = field();
    assert_eq!(
        cast_spell(&mut game, SpellKind::Fireball, pos(5, 21)),
        Err("Target is out of range.")
    );
    assert!(game.log.is_empty());
    assert_eq!(game.fireball_cooldown_ticks, 0);
}

#[test]
fn fireball_needs_a_player() {
    let (mut game, player, _, _) = field();
    game.entities.despawn(player);
    assert_eq!(cast_spell(&mut game, SpellKind::Fireball, pos(5, 5)), Err("No player to cast."));
}

#[test]
fn fireball_status_line_shows_cooldown() {
    let (mut game, _, _, _) = field();
    assert_eq!(fireball_status_line(&game), "  Fireball  [z] ready");
    game.fireball_cooldown_ticks = 42;
    assert_eq!(fireball_status_line(&game), "  Fireball  cooldown 42");
}

#[test]
fn area_effects_expire_after_their_lifetime() {
    let fire = AreaEffect { center: pos(5, 5), radius: 2, strength: 150, kind: AreaEffectKind::Fire, phase: 0 };
    let aura = AreaEffect {
        center: pos(1, 1),
        radius: 1,
        strength: 100,
        kind: AreaEffectKind::MagicAura { color: Color::rgb(100, 50, 200) },
        phase: 0,
    };
    let mut fx = vec![
        ActiveAreaEffect { effect: fire, remaining_ticks: 3 },
        ActiveAreaEffect { effect: aura, remaining_ticks: u32::MAX },
    ];
    tick_area_effects(&mut fx);
    assert_eq!(fx.len(), 2);
    tick_area_effects(&mut fx);
    assert_eq!(fx.len(), 2);
    tick_area_effects(&mut fx);
    assert_eq!(fx.len(), 1, "the fire is gone after three ticks");
    for _ in 0..60 {
        tick_area_effects(&mut fx);
    }
    assert_eq!(fx.len(), 1, "a permanent effect never expires");
    assert_eq!(fx[0].remaining_ticks, u32::MAX);
    let frame = frame_area_effects(&fx, 0x1_23);
    assert_eq!(frame[0].phase, 0x23);
}

#[test]
fn pending_hit_lands_when_its_countdown_ends() {
    let (mut game, player, wolf, _) = field();
    let hp = game.entities.stats(player).unwrap().hp;
    game.spawn_attack_effect(PendingHit {
        target: player,
        damage: 4,
        lethal: true,
        resolved_message: "Attack hits for 4 damage (20 HP left).".to_string(),
        delay_ticks: 2,
        hit: true,
    });
    assert_eq!(game.active_projectiles.len(), 1);
    assert!(!game.active_projectiles[0].is_ranged);
    game.tick_effects(None);
    assert_eq!(game.entities.stats(player).unwrap().hp, hp, "one tick left");
    game.tick_effects(None);
    assert_eq!(game.entities.stats(player).unwrap().hp, hp - 4);
    assert!(game.pending_hits.is_empty());
    assert_eq!(last_log(&game), "Attack hits for 4 damage (20 HP left).");
    let _ = wolf;
}

#[test]
fn lethal_pending_hit_removes_target_and_ends_encounter() {
    let (mut game, player, wolf, _) = field();
    game.entities.set_pos(wolf, pos(6, 5));
    let mut parts = Vec::new();
    parts.push(player);
    parts.push(wolf);
    start_combat_encounter(
        &mut game,
        parts,
        EncounterProfile { ruleset: CombatRuleset::Lethal, outcome_policy: EncounterOutcomePolicy::Plain },
        "Hostile contact!",
    );
    let state = match game.modes.current() {
        Some(GameMode::Combat(cs)) => cs.duplicate(),
        _ => panic!("encounter expected"),
    };
    game.pending_hits.push(PendingHit {
        target: wolf,
        damage: 500,
        lethal: true,
        resolved_message: "Attack defeats the target.".to_string(),
        delay_ticks: 1,
        hit: true,
    });
    game.tick_effects(Some(&state));
    assert!(!game.entities.is_alive(wolf));
    assert!(matches!(game.modes.current(), Some(GameMode::Exploration)));
    assert_eq!(last_log(&game), "Combat ended.");
}

#[test]
fn start_combat_needs_two_participants() {
    let (mut game, player, _, _) = field();
    let seed = game.rng_seed;
    start_combat_encounter(
        &mut game,
        vec![player],
        EncounterProfile { ruleset: CombatRuleset::Lethal, outcome_policy: EncounterOutcomePolicy::Plain },
        "x",
    );
    assert_eq!(last_log(&game), "Need at least two actors to start combat.");
    assert_eq!(game.rng_seed, seed);
    assert!(!in_encounter(&game));
}

#[test]
fn hostile_wolf_in_range_starts_an_encounter() {
    let (mut game, player, wolf, _) = field();
    assert!(!detect_hostile_encounters(&mut game), "the wolf is far away");
    assert!(!is_actively_hostile_to_player(&game, wolf));
    game.entities.set_pos(wolf, pos(9, 5));
    assert!(is_actively_hostile_to_player(&game, wolf));
    assert!(detect_hostile_encounters(&mut game));
    assert_eq!(last_log(&game), "Hostile contact!");
    match game.modes.current() {
        Some(GameMode::Combat(cs)) => {
            assert_eq!(cs.initiative.len(), 2);
            assert!(cs.initiative.contains(&player) && cs.initiative.contains(&wolf));
            assert!(matches!(cs.profile.ruleset, CombatRuleset::Lethal));
        }
        _ => panic!("encounter expected"),
    }
    assert!(!detect_hostile_encounters(&mut game), "no second encounter while one runs");
    assert_eq!(mode_heading(&game), "Combat");
}

#[test]
fn training_spar_heals_everyone_and_queues_epilogue() {
    let (mut game, player, _, trainer) = field();
    game.start_training_spar(trainer);
    let cs = match game.modes.current() {
        Some(GameMode::Combat(cs)) => cs.duplicate(),
        _ => panic!("combat mode expected"),
    };
    assert!(matches!(cs.profile.ruleset, CombatRuleset::NonLethalSpar));
    for id in &cs.initiative {
        let mut s = game.entities.stats(*id).unwrap();
        s.hp = 1;
        game.entities.set_stats(*id, s);
    }
    finish_combat(&mut game, &cs);
    for id in &cs.initiative {
        let s = game.entities.stats(*id).unwrap();
        assert_eq!(s.hp, s.max_hp);
    }
    assert!(matches!(game.modes.current(), Some(GameMode::Exploration)));
    let pending = game.pending_forced_dialogue.as_ref().expect("epilogue queued");
    assert_eq!(pending.npc, trainer);
    assert_eq!(pending.node_id, "post_spar_even");
    let n = game.log.len();
    assert_eq!(game.log[n - 2], "Training fight ends. Everyone catches their breath.");
    assert_eq!(game.log[n - 1], "Combat ended.");
    let _ = player;
}

#[test]
fn lethal_defeat_of_the_player_is_game_over() {
    let (mut game, player, wolf, _) = field();
    let mut rng = 1;
    let cs = CombatState::from_participants(
        vec![wolf, player],
        &game.entities,
        game.map.width,
        game.map.height,
        &mut rng,
        EncounterProfile { ruleset: CombatRuleset::Lethal, outcome_policy: EncounterOutcomePolicy::Plain },
    );
    game.modes.push(GameMode::Combat(cs.duplicate()));
    game.entities.despawn(player);
    finish_combat(&mut game, &cs);
    assert!(matches!(game.modes.current(), Some(GameMode::GameOver)));
    assert_eq!(game.modes.stack.len(), 1);
    assert_eq!(last_log(&game), "You have fallen.");
}

#[test]
fn manual_turn_based_mode_toggles_around_the_player() {
    let (mut game, player, wolf, trainer) = field();
    assert_eq!(command_footer(&game), "LMB interact   RMB move   z fireball   I inventory   J journal   F1 debug");
    toggle_turn_based(&mut game);
    assert_eq!(last_log(&game), "Turn-based mode activated.");
    assert!(turn_based_active(&game));
    match game.modes.current() {
        Some(GameMode::Combat(cs)) => {
            // The trainer is 7 cells away, the wolf 15: both join.
            assert_eq!(cs.initiative.len(), 3);
            assert!(cs.initiative.contains(&player));
            assert!(cs.initiative.contains(&wolf));
            assert!(cs.initiative.contains(&trainer));
        }
        _ => panic!("encounter expected"),
    }
    assert_eq!(
        command_footer(&game),
        "LMB attack/move   RMB march   Space wait   z fireball   f flee   t realtime   F1 debug"
    );
    toggle_turn_based(&mut game);
    assert_eq!(last_log(&game), "Combat ended.");
    assert!(matches!(game.modes.current(), Some(GameMode::Exploration)));
    assert_eq!(mode_heading(&game), "Explore");
}

#[test]
fn cannot_leave_turn_based_mode_next_to_a_hostile() {
    let (mut game, _, wolf, _) = field();
    game.entities.set_pos(wolf, pos(6, 6));
    toggle_turn_based(&mut game);
    toggle_turn_based(&mut game);
    assert_eq!(last_log(&game), "Cannot leave turn-based mode while hostiles are engaged!");
    assert!(in_encounter(&game));
}

#[test]
fn view_refresh_sees_around_walls() {
    let (mut game, _, _, _) = field();
    game.map.set_tile(7, 5, WALL_TILE);
    game.refresh_fow();
    let w = game.map.width as usize;
    assert_eq!(game.visible.len(), w * game.map.height as usize);
    assert!(game.visible[5 * w + 5], "own cell");
    assert!(game.visible[5 * w + 7], "the wall itself is seen");
    assert!(!game.visible[5 * w + 8], "behind the wall");
    assert!(!game.visible[29 * w + 29], "out of radius");
    assert!(game.explored[5 * w + 6]);
}

fn wolf_turn_encounter(
    game: &mut Game<NoopContentRuntimeHooks>,
    player: EntityId,
    wolf: EntityId,
    ap: u16,
) {
    let mut rng = 1;
    let mut cs = CombatState::from_participants(
        vec![wolf, player],
        &game.entities,
        game.map.width,
        game.map.height,
        &mut rng,
        EncounterProfile { ruleset: CombatRuleset::Lethal, outcome_policy: EncounterOutcomePolicy::Plain },
    );
    cs.turn_index = cs.initiative.iter().position(|id| *id == wolf).unwrap();
    cs.ap_remaining[cs.turn_index] = ap;
    game.modes.stack = vec![GameMode::Combat(cs)];
}

#[test]
fn npc_tick_in_exploration_starts_hostile_encounter() {
    let (mut game, player, wolf, _) = field();
    game.entities.set_pos(wolf, pos(8, 5));
    tick_npcs(&mut game);
    assert_eq!(last_log(&game), "Hostile contact!");
    match game.modes.current() {
        Some(GameMode::Combat(cs)) => {
            assert!(cs.initiative.contains(&player) && cs.initiative.contains(&wolf));
        }
        _ => panic!("encounter expected"),
    }
}

#[test]
fn npc_turn_attacks_adjacent_player_after_delay() {
    let (mut game, player, wolf, _) = field();
    game.entities.set_pos(wolf, pos(6, 5));
    wolf_turn_encounter(&mut game, player, wolf, 100);
    let before = game.entities.stats(player).unwrap().hp;
    tick_npcs(&mut game);
    assert_eq!(game.pending_hits.len(), 1, "the attack is committed, its damage deferred");
    assert_eq!(game.entities.stats(player).unwrap().hp, before);
    for _ in 0..20 {
        if game.pending_hits.is_empty() {
            break;
        }
        let state = match game.modes.current() {
            Some(GameMode::Combat(cs)) => Some(cs.duplicate()),
            _ => None,
        };
        game.tick_effects(state.as_ref());
    }
    let hit = game.pending_hits.is_empty();
    assert!(hit);
    let after = game.entities.stats(player).map(|s| s.hp).unwrap_or(0);
    let missed = game.log.iter().any(|l| l.contains("misses"));
    assert!(after < before || missed, "a landed attack damages the player");
}

#[test]
fn npc_turn_passes_when_ap_is_short_of_an_attack() {
    let (mut game, player, wolf, _) = field();
    game.entities.set_pos(wolf, pos(6, 5));
    wolf_turn_encounter(&mut game, player, wolf, ATTACK_COST_UNITS - 1);
    let hp = game.entities.stats(player).unwrap().hp;
    tick_npcs(&mut game);
    assert_eq!(game.entities.stats(player).unwrap().hp, hp);
    assert!(game.pending_hits.is_empty());
    match game.modes.current() {
        Some(GameMode::Combat(cs)) => assert_eq!(cs.current_actor(), Some(player)),
        _ => panic!("combat continues"),
    }
}

#[test]
fn npc_turn_move_waits_for_pacing_cooldown() {
    let (mut game, player, wolf, _) = field();
    game.entities.set_pos(wolf, pos(9, 5));
    wolf_turn_encounter(&mut game, player, wolf, 100);
    tick_npcs(&mut game);
    let first = game.entities.pos(wolf).unwrap();
    assert_ne!(first, pos(9, 5), "the wolf closes in");
    assert!(game.npc_combat_ai_tick_cooldown > 0);
    tick_npcs(&mut game);
    assert_eq!(game.entities.pos(wolf).unwrap(), first, "still cooling down");
}

#[test]
fn npc_tick_in_menu_only_resets_pacing() {
    let (mut game, _, _, _) = field();
    game.modes.stack = vec![GameMode::MainMenu { selected: 0 }];
    game.npc_combat_ai_tick_cooldown = 5;
    let seed = game.rng_seed;
    tick_npcs(&mut game);
    assert_eq!(game.npc_combat_ai_tick_cooldown, 0);
    assert_eq!(game.rng_seed, seed);
}

#[test]
fn realtime_tick_counts_step_cooldowns_down() {
    let (mut game, _, wolf, trainer) = field();
    game.entities.npc_brain[wolf.0 as usize].explore_step_cooldown = 3;
    game.entities.npc_brain[trainer.0 as usize].explore_step_cooldown = 9;
    tick_npcs(&mut game);
    assert_eq!(game.entities.npc_brain[wolf.0 as usize].explore_step_cooldown, 2);
    assert_eq!(game.entities.npc_brain[trainer.0 as usize].explore_step_cooldown, 8);
    assert_eq!(game.entities.pos(wolf), Some(pos(20, 20)), "a cooling NPC does not move");
}


#[test]
fn exploration_stepper_starts_encounter_on_contact() {
    let (mut game, _, wolf, _) = field();
    game.entities.set_pos(wolf, pos(7, 7));
    game.npc_exploration_ai_tick_cooldown = 3;
    game.step_npc_exploration_ai();
    assert_eq!(last_log(&game), "Hostile contact!");
    assert_eq!(game.npc_exploration_ai_tick_cooldown, 0);
    assert!(in_encounter(&game));
}

#[test]
fn exploration_stepper_waits_out_its_cooldown() {
    let (mut game, _, wolf, _) = field();
    game.npc_exploration_ai_tick_cooldown = 2;
    game.step_npc_exploration_ai();
    assert_eq!(game.npc_exploration_ai_tick_cooldown, 1);
    assert_eq!(game.entities.pos(wolf), Some(pos(20, 20)));
}

#[test]
fn exploration_stepper_paces_after_a_move() {
    let (mut game, _, wolf, _) = field();
    let mut moved = false;
    for _ in 0..40 {
        let before = game.entities.pos(wolf);
        game.npc_exploration_ai_tick_cooldown = 0;
        game.step_npc_exploration_ai();
        if game.entities.pos(wolf) != before {
            moved = true;
            assert_eq!(game.npc_exploration_ai_tick_cooldown, 6);
            let p = game.entities.pos(wolf).unwrap();
            let q = before.unwrap();
            assert!((p.x - q.x).abs() <= 1 && (p.y - q.y).abs() <= 1, "one step at a time");
            break;
        }
    }
    assert!(moved, "a roaming wolf eventually moves");
    game.modes.stack = vec![GameMode::MainMenu { selected: 0 }];
    game.npc_exploration_ai_tick_cooldown = 4;
    game.step_npc_exploration_ai();
    assert_eq!(game.npc_exploration_ai_tick_cooldown, 0);
}

#[test]
fn key_layer_and_input_resolution_follow_the_mode() {
    let (mut game, player, wolf, _) = field();
    assert_eq!(key_layer_for_game(&game), KeyMapLayer::Exploration);
    let w = KeyChord { key: Key::Char('w'), ctrl: false, alt: false, shift: false };
    assert_eq!(game.resolve_game_input(&InputEvent::Key(w)), Some(GameInput::Command(GameCommand::StepNorth)));
    let x = KeyChord { key: Key::Char('x'), ctrl: false, alt: false, shift: false };
    assert_eq!(game.resolve_game_input(&InputEvent::Key(x)), None);
    assert_eq!(game.resolve_game_input(&InputEvent::Resize { cols: 80, rows: 30 }), None);
    let mv = InputEvent::MouseMove { col: 3, row: 4 };
    assert_eq!(game.resolve_game_input(&mv), Some(GameInput::Raw(mv)));
    let mut rng = 1;
    let cs = CombatState::from_participants(
        vec![player, wolf],
        &game.entities,
        game.map.width,
        game.map.height,
        &mut rng,
        EncounterProfile { ruleset: CombatRuleset::Lethal, outcome_policy: EncounterOutcomePolicy::Plain },
    );
    game.turn_clock = Some(cs);
    assert_eq!(key_layer_for_game(&game), KeyMapLayer::Combat);
    assert!(turn_based_active(&game));
    assert_eq!(mode_heading(&game), "Turn-based");
}

#[test]
fn training_spar_restores_hp_on_end() {
    let (mut game, _, _, trainer) = field();
    game.modes.stack = vec![GameMode::Exploration];
    game.start_training_spar(trainer);
    let cs = match game.modes.current() {
        Some(GameMode::Combat(cs)) => cs.duplicate(),
        _ => panic!("combat mode expected"),
    };
    for id in &cs.initiative {
        if let Some(stats) = game.entities.stats_mut(*id) {
            stats.hp = 1;
        }
    }
    finish_combat(&mut game, &cs);
    for id in &cs.initiative {
        let stats = game.entities.stats(*id).expect("combatant stats must exist");
        assert_eq!(stats.hp, stats.max_hp);
    }
}

#[test]
fn lethal_combat_player_death_enters_game_over() {
    let (mut game, player, _, trainer) = field();
    game.entities.set_pos(player, pos(10, 10));
    game.entities.set_pos(trainer, pos(11, 10));
    let mut rng = 1;
    let cs = CombatState::from_participants(
        vec![trainer, player],
        &game.entities,
        game.map.width,
        game.map.height,
        &mut rng,
        EncounterProfile { ruleset: CombatRuleset::Lethal, outcome_policy: EncounterOutcomePolicy::Plain },
    );
    game.modes.stack = vec![GameMode::Exploration];
    game.modes.push(GameMode::Combat(cs.duplicate()));
    game.entities.despawn(player);
    finish_combat(&mut game, &cs);
    assert!(matches!(game.modes.current(), Some(GameMode::GameOver)));
}

// The frame step of the game ticks area effects through `tick_effects`; these drive it
// directly.
#[test]
fn area_effect_expires_after_lifetime() {
    let (mut game, _, _, _) = field();
    game.trigger_area_effect(
        AreaEffect { center: pos(5, 5), radius: 2, strength: 150, kind: AreaEffectKind::Fire, phase: 0 },
        3,
    );
    assert_eq!(game.active_area_effects.len(), 1, "effect should be present after trigger");
    game.tick_effects(None);
    assert_eq!(game.active_area_effects.len(), 1);
    game.tick_effects(None);
    assert_eq!(game.active_area_effects.len(), 1);
    game.tick_effects(None);
    assert_eq!(game.active_area_effects.len(), 0, "effect should be removed after lifetime expires");
}

#[test]
fn area_effect_permanent_when_max_ticks() {
    let (mut game, _, _, _) = field();
    game.trigger_area_effect(
        AreaEffect {
            center: pos(5, 5),
            radius: 1,
            strength: 100,
            kind: AreaEffectKind::MagicAura { color: Color::rgb(100, 50, 200) },
            phase: 0,
        },
        u32::MAX,
    );
    for _ in 0..60 {
        game.tick_effects(None);
    }
    assert_eq!(game.active_area_effects.len(), 1, "permanent effect should not expire");
}

#[test]
fn fireball_damages_entities_in_aoe() {
    let (mut game, _, wolf, _) = field();
    let player_pos = game.player_pos().expect("player exists");
    game.entities.set_pos(wolf, pos(player_pos.x + 2, player_pos.y));
    let hp_before = game.entities.stats(wolf).unwrap().hp;
    let target = pos(player_pos.x + 2, player_pos.y);
    cast_spell(&mut game, SpellKind::Fireball, target).expect("cast must succeed");
    let hp_after = game.entities.stats(wolf).map(|s| s.hp).unwrap_or(0);
    assert!(hp_after < hp_before, "wolf should take damage from fireball");
}

#[test]
fn fireball_ignores_entities_outside_aoe() {
    let (mut game, _, wolf, _) = field();
    let player_pos = game.player_pos().expect("player exists");
    game.entities.set_pos(wolf, pos(player_pos.x + 6, player_pos.y));
    let hp_before = game.entities.stats(wolf).unwrap().hp;
    cast_spell(&mut game, SpellKind::Fireball, player_pos).expect("cast must succeed");
    let hp_after = game.entities.stats(wolf).unwrap().hp;
    assert_eq!(hp_after, hp_before, "wolf outside AoE should be unharmed");
}

#[test]
fn cooldown_prevents_immediate_recast() {
    let (mut game, _, _, _) = field();
    let target = game.player_pos().expect("player exists");
    cast_spell(&mut game, SpellKind::Fireball, target).expect("first cast must succeed");
    let result = cast_spell(&mut game, SpellKind::Fireball, target);
    assert!(result.is_err(), "second cast must fail while on cooldown");
}

#[test]
fn fireball_spawns_fire_area_effect() {
    let (mut game, _, _, _) = field();
    let target = game.player_pos().expect("player exists");
    let effects_before = game.active_area_effects.len();
    cast_spell(&mut game, SpellKind::Fireball, target).expect("cast must succeed");
    assert_eq!(game.active_area_effects.len(), effects_before + 1, "fireball must spawn a fire area effect");
}

fn encounter(game: &Game<NoopContentRuntimeHooks>, a: EntityId, b: EntityId, ruleset: CombatRuleset) -> CombatState {
    let mut rng = 1;
    CombatState::from_participants(
        vec![a, b],
        &game.entities,
        game.map.width,
        game.map.height,
        &mut rng,
        EncounterProfile { ruleset, outcome_policy: EncounterOutcomePolicy::Plain },
    )
}

#[test]
fn combat_target_block_describes_the_fighter_under_the_pointer() {
    let (mut game, player, wolf, _) = field();
    game.entities.set_pos(wolf, pos(6, 5));
    let cs = encounter(&game, player, wolf, CombatRuleset::Lethal);
    assert_eq!(combat_target_lines(&game, &cs, HoverTarget::Nothing), vec!["—".to_string()]);
    assert_eq!(combat_target_lines(&game, &cs, HoverTarget::OffMap), vec!["(off map)".to_string()]);
    let s = game.entities.stats(wolf).unwrap();
    assert_eq!(
        combat_target_lines(&game, &cs, HoverTarget::Cell(pos(6, 5))),
        vec![
            "wolf".to_string(),
            format!("HP       {}/{}", s.hp, s.max_hp),
            "Range    1".to_string(),
            "Hostile".to_string()
        ]
    );
    assert_eq!(
        combat_target_lines(&game, &cs, HoverTarget::Cell(pos(8, 8))),
        vec!["—".to_string(), "(no fighter here)".to_string(), "Range    6".to_string()]
    );
    // The player's own cell shows no fighter.
    assert_eq!(
        combat_target_lines(&game, &cs, HoverTarget::Cell(pos(5, 5))),
        vec!["—".to_string(), "(no fighter here)".to_string(), "Range    0".to_string()]
    );
}

#[test]
fn combat_target_block_leaves_out_hostility_for_a_friendly_fighter() {
    let (game, player, _, trainer) = field();
    let cs = encounter(&game, player, trainer, CombatRuleset::NonLethalSpar);
    let s = game.entities.stats(trainer).unwrap();
    assert_eq!(
        combat_target_lines(&game, &cs, HoverTarget::Cell(pos(5, 12))),
        vec!["trainer".to_string(), format!("HP       {}/{}", s.hp, s.max_hp), "Range    7".to_string()]
    );
}

#[test]
fn combat_status_column_on_the_players_turn_and_the_enemys() {
    let (mut game, player, wolf, trainer) = field();
    game.entities.set_pos(wolf, pos(6, 5));
    let mut cs = encounter(&game, player, wolf, CombatRuleset::Lethal);
    cs.turn_index = cs.initiative.iter().position(|id| *id == player).unwrap();
    cs.ap_remaining[cs.turn_index] = 100;
    let expected: Vec<String> = vec![
        "Combat", "", "Turn     You", "Health   24/24", "AP       10", "", "Spells", "  Fireball  [z] ready", "",
        "Target", "—",
    ]
    .into_iter()
    .map(|s| s.to_string())
    .collect();
    assert_eq!(combat_status_lines(&game, &cs, HoverTarget::Nothing), expected);
    let mut spar = encounter(&game, player, trainer, CombatRuleset::NonLethalSpar);
    spar.turn_index = spar.initiative.iter().position(|id| *id == trainer).unwrap();
    game.fireball_cooldown_ticks = 12;
    let lines = combat_status_lines(&game, &spar, HoverTarget::OffMap);
    assert_eq!(lines[0], "Combat (training)");
    assert_eq!(lines[2], "Turn     trainer");
    assert_eq!(lines[4], "AP       (enemy)");
    assert_eq!(lines[7], "  Fireball  cooldown 12");
    assert_eq!(lines[10], "(off map)");
    assert_eq!(lines.len(), 11);
}

#[test]
fn documented_keys_are_bound() {
    let km = default_game_key_map();
    let c = |key: Key| KeyChord { key, ctrl: false, alt: false, shift: false };
    assert_eq!(km.resolve(KeyMapLayer::Combat, c(Key::Tab)), Some(GameCommand::Confirm));
    assert_eq!(km.resolve(KeyMapLayer::Combat, c(Key::Char(' '))), Some(GameCommand::Confirm));
    assert_eq!(km.resolve(KeyMapLayer::Combat, c(Key::Char('f'))), Some(GameCommand::CombatFlee));
    assert_eq!(km.resolve(KeyMapLayer::Combat, c(Key::Esc)), Some(GameCommand::Back));
    assert_eq!(km.resolve(KeyMapLayer::Exploration, c(Key::Char('e'))), Some(GameCommand::Confirm));
    assert_eq!(km.resolve(KeyMapLayer::Exploration, c(Key::Enter)), Some(GameCommand::Confirm));
    for layer in [KeyMapLayer::ConfirmModal, KeyMapLayer::BrowseModal, KeyMapLayer::ItemTransfer] {
        assert_eq!(km.resolve(layer, c(Key::Char('j'))), Some(GameCommand::ListNext));
        assert_eq!(km.resolve(layer, c(Key::Char('k'))), Some(GameCommand::ListPrev));
        assert_eq!(km.resolve(layer, c(Key::Up)), Some(GameCommand::ListPrev));
        assert_eq!(km.resolve(layer, c(Key::Down)), Some(GameCommand::ListNext));
    }
    assert_eq!(km.resolve(KeyMapLayer::ItemTransfer, c(Key::Char('h'))), Some(GameCommand::TransferFocusSide));
    assert_eq!(km.resolve(KeyMapLayer::ItemTransfer, c(Key::Char('l'))), Some(GameCommand::TransferFocusSide));
    assert_eq!(km.resolve(KeyMapLayer::ItemTransfer, c(Key::Tab)), Some(GameCommand::TransferFocusSide));
}

#[test]
fn the_shell_polls_fast_while_walking_or_fighting() {
    assert_eq!(poll_interval_ms(Some(&GameMode::Exploration), true), 0);
    assert_eq!(poll_interval_ms(Some(&GameMode::Exploration), false), 16);
    assert_eq!(poll_interval_ms(Some(&GameMode::MainMenu { selected: 0 }), false), 250);
    assert_eq!(poll_interval_ms(Some(&GameMode::Journal { quest_cursor: 0 }), false), 250);
    assert_eq!(poll_interval_ms(None, false), 250);
}

/// An encounter between the player and the trainer, with the trainer to act.
fn trainer_turn(game: &mut Game<NoopContentRuntimeHooks>, player: EntityId, trainer: EntityId) {
    let mut rng = 1;
    let mut cs = CombatState::from_participants(
        vec![trainer, player],
        &game.entities,
        game.map.width,
        game.map.height,
        &mut rng,
        EncounterProfile { ruleset: CombatRuleset::Lethal, outcome_policy: EncounterOutcomePolicy::Plain },
    );
    cs.turn_index = cs.initiative.iter().position(|id| *id == trainer).unwrap();
    cs.ap_remaining[cs.turn_index] = 100;
    game.modes.push(GameMode::Combat(cs));
}

#[test]
fn a_struck_calm_npc_steps_toward_where_it_was_hit() {
    let (mut game, player, _, trainer) = field();
    assert!(!is_actively_hostile_to_player(&game, trainer));
    game.entities.npc_brain[trainer.0 as usize].investigation_goal = Some(pos(5, 8));
    trainer_turn(&mut game, player, trainer);
    step_npc_combat_ai(&mut game);
    assert_eq!(game.entities.pos(trainer), Some(pos(5, 11)));
    assert_eq!(game.entities.npc_brain[trainer.0 as usize].investigation_goal, Some(pos(5, 8)));
    assert!(game.npc_combat_ai_tick_cooldown > 0, "a successful move paces the AI");
    match game.modes.current() {
        Some(GameMode::Combat(cs)) => assert!(cs.ap_remaining[cs.turn_index] < 100),
        _ => panic!("the encounter goes on"),
    }
}

#[test]
fn an_npc_at_the_cell_it_was_hit_from_forgets_it() {
    let (mut game, player, _, trainer) = field();
    game.entities.npc_brain[trainer.0 as usize].investigation_goal = Some(pos(5, 12));
    trainer_turn(&mut game, player, trainer);
    step_npc_combat_ai(&mut game);
    assert_eq!(game.entities.npc_brain[trainer.0 as usize].investigation_goal, None);
}

#[test]
fn the_encounter_ai_waits_out_its_pacing_and_idles_on_the_players_turn() {
    let (mut game, player, _, trainer) = field();
    game.entities.npc_brain[trainer.0 as usize].investigation_goal = Some(pos(5, 8));
    trainer_turn(&mut game, player, trainer);
    game.npc_combat_ai_tick_cooldown = 2;
    step_npc_combat_ai(&mut game);
    assert_eq!(game.npc_combat_ai_tick_cooldown, 1);
    assert_eq!(game.entities.pos(trainer), Some(pos(5, 12)));
    if let Some(GameMode::Combat(cs)) = game.modes.current_mut() {
        cs.turn_index = cs.initiative.iter().position(|id| *id == player).unwrap();
    }
    step_npc_combat_ai(&mut game);
    assert_eq!(game.npc_combat_ai_tick_cooldown, 0);
    assert_eq!(game.entities.pos(trainer), Some(pos(5, 12)));
}

#[test]
fn the_player_steps_onto_a_free_floor_cell() {
    let (mut game, player, _, _) = field();
    game.try_move_player(1, 0);
    assert_eq!(game.entities.pos(player), Some(pos(6, 5)));
    assert!(game.log.is_empty());
}

#[test]
fn the_player_does_not_step_off_the_map() {
    let (mut game, player, _, _) = field();
    game.entities.set_pos(player, pos(0, 0));
    game.try_move_player(-1, 0);
    assert_eq!(game.entities.pos(player), Some(pos(0, 0)));
}

#[test]
fn stepping_onto_an_item_picks_it_up() {
    let (mut game, player, _, _) = field();
    let herb = game.entities.spawn(
        pos(6, 5),
        '%',
        Color::rgb(80, 200, 80),
        "herb".to_string(),
        false,
        None,
        Some(ItemStack::new("herb", 2)),
        false,
    );
    game.try_move_player(1, 0);
    assert_eq!(game.entities.pos(player), Some(pos(6, 5)));
    assert!(!game.entities.is_alive(herb));
    let st = game.narrative.inventory.stacks.iter().find(|s| s.id == "herb").unwrap();
    assert_eq!(st.count, 2);
    assert_eq!(last_log(&game), "Picked up herb x2.");
}

#[test]
fn stepping_into_a_talking_npc_opens_its_dialogue() {
    let (mut game, player, _, trainer) = field();
    game.entities.set_pos(trainer, pos(5, 6));
    game.try_move_player(0, 1);
    assert_eq!(game.entities.pos(player), Some(pos(5, 5)));
    match game.modes.current() {
        Some(GameMode::Dialogue { npc_entity, dialogue_id, .. }) => {
            assert_eq!(*npc_entity, trainer);
            assert_eq!(dialogue_id, "trainer");
        },
        _ => panic!("a dialogue opens"),
    }
}

#[test]
fn a_blocking_entity_stops_the_step() {
    let (mut game, player, _, _) = field();
    game.entities.spawn(pos(4, 5), '#', Color::rgb(90, 90, 90), "crate".to_string(), true, None, None, false);
    game.try_move_player(-1, 0);
    assert_eq!(game.entities.pos(player), Some(pos(5, 5)));
}

#[test]
fn exploration_keys_step_open_screens_and_pan() {
    let (mut game, player, _, _) = field();
    assert_eq!(game.handle_explore(GameInput::Command(GameCommand::StepEast), false, None), None);
    assert_eq!(game.entities.pos(player), Some(pos(6, 5)));
    assert_eq!(game.handle_explore(GameInput::Command(GameCommand::StepNorth), true, None), Some((0, -1)));
    assert_eq!(game.entities.pos(player), Some(pos(6, 5)), "a larger map pans instead of stepping");
    game.handle_explore(GameInput::Command(GameCommand::ToggleDebug), false, None);
    assert!(game.debug_overlay);
    game.handle_explore(GameInput::Command(GameCommand::OpenInventory), false, None);
    assert!(matches!(game.modes.current(), Some(GameMode::Inventory { cursor: 0 })));
    assert_eq!(game.modes.stack.len(), 2);
}

#[test]
fn exploration_journal_key_opens_the_journal() {
    let (mut game, _, _, _) = field();
    game.handle_explore(GameInput::Command(GameCommand::OpenJournal), false, None);
    assert!(matches!(game.modes.current(), Some(GameMode::Journal { quest_cursor: 0 })));
}

#[test]
fn a_queued_forced_dialogue_opens_once_back_in_exploration() {
    let (mut game, _, _, trainer) = field();
    game.start_training_spar(trainer);
    let cs = match game.modes.current() {
        Some(GameMode::Combat(cs)) => cs.duplicate(),
        _ => panic!("combat mode expected"),
    };
    game.pump_pending_forced_dialogue();
    assert!(game.pending_forced_dialogue.is_none());
    finish_combat(&mut game, &cs);
    assert!(game.pending_forced_dialogue.is_some());
    game.pump_pending_forced_dialogue();
    assert!(game.pending_forced_dialogue.is_none());
    match game.modes.current() {
        // The trainer's tree has neither the epilogue node nor a hub: it opens on its first node.
        Some(GameMode::Dialogue { npc_entity, node_index, choice_cursor, .. }) => {
            assert_eq!(*npc_entity, trainer);
            assert_eq!(*node_index, 0);
            assert_eq!(*choice_cursor, 0);
        },
        _ => panic!("the epilogue dialogue opens"),
    }
}

#[test]
fn a_dialogue_opened_at_a_named_node_starts_there() {
    let (mut game, _, _, trainer) = field();
    assert_eq!(game.start_dialogue_at_node(trainer, "bye"), 1);
    assert!(matches!(game.modes.current(), Some(GameMode::Dialogue { node_index: 1, .. })));
}

#[test]
fn the_interact_key_talks_to_a_nearby_npc() {
    let (mut game, _, _, trainer) = field();
    game.handle_explore(GameInput::Command(GameCommand::Confirm), false, None);
    assert!(matches!(game.modes.current(), Some(GameMode::Exploration)), "nobody within talking range");
    game.entities.set_pos(trainer, pos(5, 7));
    game.handle_explore(GameInput::Command(GameCommand::Confirm), false, None);
    match game.modes.current() {
        Some(GameMode::Dialogue { npc_entity, .. }) => assert_eq!(*npc_entity, trainer),
        _ => panic!("the trainer's dialogue opens"),
    }
}

#[test]
fn the_interact_key_opens_an_adjacent_chest() {
    let (mut game, _, _, trainer) = field();
    game.entities.set_pos(trainer, pos(5, 7));
    let chest = game.entities.spawn(pos(6, 6), '=', Color::rgb(150, 110, 60), "chest".to_string(), true, None, None, true);
    game.interact();
    match game.modes.current() {
        Some(GameMode::ItemTransfer { container, cursor_player: 0, cursor_container: 0, .. }) => {
            assert_eq!(*container, chest, "a chest comes before a talker")
        },
        _ => panic!("the transfer screen opens"),
    }
    assert!(game.narrative.container_inventories.iter().any(|c| c.container == chest.0 && c.inventory.stacks.is_empty()));
}

/// The field with the player at (10, 10), the wolf next to it at `wolf_at`, and an
/// encounter between them with the wolf to act with `ap` AP.
fn wolf_fight(wolf_at: GridPos, ap: u16) -> (Game<NoopContentRuntimeHooks>, EntityId, EntityId) {
    let (mut game, player, wolf, _) = field();
    game.entities.set_pos(player, pos(10, 10));
    game.entities.set_pos(wolf, wolf_at);
    let mut rng = 1;
    let mut cs = CombatState::from_participants(
        vec![wolf, player],
        &game.entities,
        game.map.width,
        game.map.height,
        &mut rng,
        EncounterProfile { ruleset: CombatRuleset::Lethal, outcome_policy: EncounterOutcomePolicy::Plain },
    );
    cs.turn_index = cs.initiative.iter().position(|id| *id == wolf).unwrap();
    cs.ap_remaining[cs.turn_index] = ap;
    game.modes.stack = vec![GameMode::Combat(cs)];
    (game, player, wolf)
}

#[test]
fn cooldown_expires_after_ticks() {
    let (mut game, player, _, _) = field();
    let target = game.entities.pos(player).unwrap();
    cast_spell(&mut game, SpellKind::Fireball, target).expect("first cast must succeed");
    let cd = def(SpellKind::Fireball).cooldown_ticks;
    for _ in 0..=cd {
        game.step(&InputBatch::default());
    }
    assert_eq!(game.fireball_cooldown_ticks, 0, "cooldown must expire after enough ticks");
    cast_spell(&mut game, SpellKind::Fireball, target).expect("cast after cooldown must succeed");
}

#[test]
fn trainer_dialogue_can_start_training_spar() {
    let (mut game, _, _, trainer) = field();
    game.modes.stack = vec![GameMode::Exploration];
    game.start_dialogue(trainer);
    game.handle_dialogue(GameInput::Command(GameCommand::Confirm), None);
    game.handle_dialogue(GameInput::Command(GameCommand::Confirm), None);
    let cs = match game.modes.current() {
        Some(GameMode::Combat(cs)) => cs.duplicate(),
        _ => panic!("trainer spar should enter combat mode"),
    };
    assert!(matches!(cs.profile.ruleset, CombatRuleset::NonLethalSpar));
}

#[test]
fn player_walk_goal_advances_over_ticks() {
    let (mut game, player, _, _) = field();
    game.modes.stack = vec![GameMode::Exploration];
    let start = game.entities.pos(player).unwrap();
    let goal = pos(start.x + 3, start.y);
    game.try_set_player_walk_goal(goal);
    for _ in 0..48 {
        game.step(&InputBatch::default());
    }
    assert_eq!(game.entities.pos(player), Some(goal));
}

#[test]
fn npc_combat_ai_attacks_adjacent_player() {
    let (mut game, player, _) = wolf_fight(pos(11, 10), 100);
    // A generator state on which the wolf's first swing lands.
    game.rng_seed = 34;
    let before = game.entities.stats(player).unwrap().hp;
    // First step: the wolf commits its attack (AP spent, the hit queued).
    game.step(&InputBatch::default());
    for _ in 0..20 {
        if game.pending_hits.is_empty() {
            break;
        }
        game.step(&InputBatch::default());
    }
    let after = game.entities.stats(player).map(|s| s.hp).unwrap_or(0);
    assert!(after < before, "npc should attack adjacent player (damage after delay)");
}

#[test]
fn npc_combat_ai_passes_when_adjacent_and_ap_insufficient_to_attack() {
    let (mut game, player, _) = wolf_fight(pos(11, 10), ATTACK_COST_UNITS - 1);
    let hp_before = game.entities.stats(player).unwrap().hp;
    game.step(&InputBatch::default());
    let hp_after = game.entities.stats(player).unwrap().hp;
    assert_eq!(hp_before, hp_after, "npc must not attack when AP is below attack cost");
    match game.modes.current() {
        Some(GameMode::Combat(cs2)) => {
            assert_eq!(cs2.current_actor(), Some(player), "wolf should pass the turn when unable to attack")
        },
        _ => panic!("expected combat to continue"),
    }
}

#[test]
fn npc_combat_ai_move_pacing_skips_tick_while_cooldown() {
    let (mut game, _, wolf) = wolf_fight(pos(14, 10), 100);
    game.step(&InputBatch::default());
    let after_first = game.entities.pos(wolf).unwrap();
    assert_ne!(after_first, pos(14, 10), "the wolf steps toward the player");
    let mut same_ticks = 0u32;
    while game.entities.pos(wolf) == Some(after_first) {
        game.step(&InputBatch::default());
        same_ticks += 1;
        assert!(same_ticks < 32, "wolf should take another step after visual pacing cooldown");
    }
    assert!(same_ticks >= 2, "expected at least one pacing tick before second move");
}

#[test]
fn a_frame_routes_its_events_to_the_active_screen() {
    let (mut game, player, _, _) = field();
    let hit = PointerHit { world: None, row: None, choice: None };
    let right = InputEvent::Key(KeyChord { key: Key::Right, ctrl: false, alt: false, shift: false });
    let batch = InputBatch { events: vec![(right, hit), (right, hit)], view_pans: false };
    let outs = game.step(&batch);
    assert_eq!(outs.len(), 2);
    assert_eq!(game.entities.pos(player), Some(pos(7, 5)));
    let panning = InputBatch { events: vec![(right, hit)], view_pans: true };
    let outs = game.step(&panning);
    assert_eq!(outs[0].pan, Some((1, 0)));
    assert_eq!(game.entities.pos(player), Some(pos(7, 5)));
    assert_eq!(game.surface_tick, 2);
}

#[test]
fn clicking_a_chest_while_exploring_walks_to_it_then_opens_it() {
    let (mut game, player, _, _) = field();
    let chest = game.entities.spawn(pos(8, 5), '=', Color::rgb(150, 110, 60), "chest".to_string(), true, None, None, true);
    let click = InputEvent::MouseDown { button: MouseButton::Left, col: 0, row: 0 };
    let hit = PointerHit { world: Some(pos(8, 5)), row: None, choice: None };
    game.step(&InputBatch { events: vec![(click, hit)], view_pans: false });
    assert!(game.pending_player_action.is_some(), "the chest is out of reach: the player walks first");
    for _ in 0..40 {
        game.step(&InputBatch::default());
        if matches!(game.modes.current(), Some(GameMode::ItemTransfer { .. })) {
            break;
        }
    }
    assert!(matches!(game.modes.current(), Some(GameMode::ItemTransfer { container, .. }) if *container == chest));
    assert_eq!(game.entities.pos(player), Some(pos(7, 5)));
}

#[test]
fn a_right_click_sets_a_walk_goal_and_a_hopeless_one_says_so() {
    let (mut game, player, _, _) = field();
    game.handle_explore(GameInput::Raw(InputEvent::MouseDown { button: MouseButton::Right, col: 0, row: 0 }), false, Some(pos(5, 8)));
    assert_eq!(game.player_walk_goal, Some(pos(5, 8)));
    assert_eq!(game.player_walk_path, vec![pos(5, 8)]);
    game.try_set_player_walk_goal(pos(100, 100));
    assert_eq!(last_log(&game), "No viable path to target.");
    assert!(game.player_walk_goal.is_none());
    let _ = player;
}


#[test]
fn a_newer_save_is_refused_and_changes_nothing() {
    let (mut game, player, _, _) = field();
    let (other, _, _, _) = field();
    let save = SaveGameV1 {
        schema_version: SAVE_SCHEMA_VERSION + 1,
        world: WorldSnapshot { map: other.map, entities: other.entities, narrative: other.narrative, rng_seed: 99 },
        modes: other.modes,
    };
    let r = game.apply_save(save);
    assert_eq!(r, Err(format!("unsupported save version {} (max {})", SAVE_SCHEMA_VERSION + 1, SAVE_SCHEMA_VERSION)));
    assert_eq!(game.rng_seed, 2);
    assert_eq!(game.entities.pos(player), Some(pos(5, 5)));
}

#[test]
fn applying_a_save_takes_up_its_world_and_drops_transient_state() {
    let (mut game, player, _, _) = field();
    cast_spell(&mut game, SpellKind::Fireball, pos(7, 5)).unwrap();
    assert!(!game.active_area_effects.is_empty());
    let (mut other, p2, _, _) = field();
    other.entities.set_pos(p2, pos(9, 9));
    let save = SaveGameV1 {
        schema_version: SAVE_SCHEMA_VERSION,
        world: WorldSnapshot { map: other.map, entities: other.entities, narrative: other.narrative, rng_seed: 77 },
        modes: other.modes,
    };
    assert_eq!(game.apply_save(save), Ok(()));
    assert_eq!(game.rng_seed, 77);
    assert_eq!(game.entities.pos(player), Some(pos(9, 9)));
    assert!(game.active_area_effects.is_empty());
    assert_eq!(game.fireball_cooldown_ticks, 0);
    assert_eq!(game.explored.len(), 30 * 30);
    assert!(game.visible[9 * 30 + 9], "the view is refreshed around the loaded player");
}

#[test]
fn clicking_an_adjacent_foe_in_an_encounter_attacks_it() {
    let (mut game, player, wolf) = wolf_fight(pos(11, 10), 100);
    if let Some(GameMode::Combat(cs)) = game.modes.current_mut() {
        cs.turn_index = cs.initiative.iter().position(|id| *id == player).unwrap();
        cs.ap_remaining[cs.turn_index] = 100;
    }
    game.encounter_primary_click(pos(11, 10));
    assert_eq!(game.pending_hits.len(), 1, "the swing is under way");
    assert_eq!(game.pending_hits[0].target, wolf);
    match game.modes.current() {
        Some(GameMode::Combat(cs)) => assert_eq!(cs.ap_remaining[cs.turn_index], 80),
        _ => panic!("the encounter goes on"),
    }
}

#[test]
fn a_right_click_in_an_encounter_marches_the_player() {
    let (mut game, player, _) = wolf_fight(pos(11, 10), 100);
    if let Some(GameMode::Combat(cs)) = game.modes.current_mut() {
        cs.turn_index = cs.initiative.iter().position(|id| *id == player).unwrap();
        cs.ap_remaining[cs.turn_index] = 25;
    }
    game.encounter_secondary_click(pos(10, 14));
    assert_eq!(game.entities.pos(player), Some(pos(10, 12)), "two straight steps fit 25 AP");
}

#[test]
fn a_save_taken_and_applied_gives_the_world_back() {
    let (mut game, player, wolf, _) = field();
    game.entities.set_pos(player, pos(8, 8));
    game.narrative.inventory.add("herb", 3);
    game.rng_seed = 1234;
    let save = game.save_game();
    assert_eq!(save.schema_version, SAVE_SCHEMA_VERSION);
    assert_eq!(save.world.rng_seed, 1234);
    game.entities.set_pos(player, pos(1, 1));
    game.entities.despawn(wolf);
    game.rng_seed = 5;
    assert_eq!(game.apply_save(save), Ok(()));
    assert_eq!(game.entities.pos(player), Some(pos(8, 8)));
    assert!(game.entities.is_alive(wolf));
    assert_eq!(game.rng_seed, 1234);
    assert_eq!(game.narrative.inventory.stacks[0].id, "herb");
    assert!(matches!(game.modes.current(), Some(GameMode::Exploration)));
}

#[test]
fn the_quick_save_keys_ask_the_shell_to_save_or_load() {
    let (mut game, _, _, _) = field();
    let hit = PointerHit { world: None, row: None, choice: None };
    let out = game.route(GameInput::Command(GameCommand::QuickSave), hit, false);
    assert!(out.save && !out.load && out.pan.is_none() && !out.restart);
    let out = game.route(GameInput::Command(GameCommand::QuickLoad), hit, false);
    assert!(out.load && !out.save);
    game.modes.push(GameMode::Inventory { cursor: 0 });
    let out = game.route(GameInput::Command(GameCommand::QuickSave), hit, false);
    assert!(!out.save, "only the exploration screen saves");
}
