use tui_game_core::color::Color;
use tui_game_core::combat::{CombatRuleset, CombatState, EncounterOutcomePolicy, EncounterProfile};
use tui_game_core::content::{NoopContentRuntimeHooks, QuestJournalStatus};
use tui_game_core::entity::{ActorStats, EntityArena, EntityId, GridPos};
use tui_game_core::game::actions::ActionCommand;
use tui_game_core::game::key_commands::{default_game_key_map, GameCommand, GameInput};
use tui_game_core::game::modes::{GameMode, GameModeStack, TransferFocus};
use tui_game_core::game::spell::SpellKind;
use tui_game_core::game::state::{player_default_stats, Game};
use tui_game_core::game::hud::status_label;
use tui_game_core::game_content::content_pack;
use tui_game_core::input::{InputEvent, MouseButton};
use tui_game_core::narrative::{JournalQuest, NarrativeState};
use tui_game_core::world::{MapGrid, TileTable, FLOOR_TILE};

fn pos(x: i32, y: i32) -> GridPos {
    GridPos { x, y }
}

/// A 40×40 open field with the player at (5, 5), a wolf at (20, 20) and a chest at (6, 6),
/// in `mode`.
fn field(mode: GameMode) -> (Game<NoopContentRuntimeHooks>, EntityId, EntityId, EntityId) {
    let map = MapGrid::filled(40, 40, FLOOR_TILE, TileTable::default_pack().unwrap());
    let content = content_pack();
    let mut entities = EntityArena::new();
    let player = entities.spawn(pos(5, 5), '@', Color::rgb(255, 235, 180), "You".to_string(), false, None, None, false);
    entities.set_player(player);
    let wolf = entities.spawn(
        pos(20, 20),
        'w',
        Color::rgb(200, 200, 200),
        "wolf".to_string(),
        true,
        Some("wolf".to_string()),
        None,
        false,
    );
    entities.set_stats(wolf, content.blueprint_stats("wolf").unwrap());
    let chest = entities.spawn(pos(6, 6), 'C', Color::rgb(160, 120, 60), "Chest".to_string(), true, None, None, true);
    let mut modes = GameModeStack::new();
    modes.push(GameMode::Exploration);
    modes.push(mode);
    let game = Game {
        modes,
        map,
        entities,
        explored: Vec::new(),
        visible: Vec::new(),
        narrative: NarrativeState::new(),
        content,
        hooks: NoopContentRuntimeHooks,
        rng_seed: 5,
        log: Vec::new(),
        menu_items: vec!["Start game", "Quit"],
        quit_requested: false,
        debug_overlay: false,
        surface_tick: 0,
        player_walk_path: Vec::new(),
        player_walk_goal: None,
        player_walk_tick_cooldown: 0,
        npc_combat_ai_tick_cooldown: 0,
        npc_exploration_ai_tick_cooldown: 0,
        pending_forced_dialogue: None,
        pending_player_action: None,
        turn_clock: None,
        key_map: default_game_key_map(),
        active_projectiles: Vec::new(),
        pending_hits: Vec::new(),
        active_area_effects: Vec::new(),
        fireball_cooldown_ticks: 0,
    };
    (game, player, wolf, chest)
}

fn last_log(game: &Game<NoopContentRuntimeHooks>) -> &str {
    game.log.last().map(|s| s.as_str()).unwrap_or("")
}

fn cmd(c: GameCommand) -> GameInput {
    GameInput::Command(c)
}

fn quest(id: &str) -> JournalQuest {
    JournalQuest { quest: id.to_string(), title: id.to_string(), status: QuestJournalStatus::InProgress, lines: Vec::new() }
}

fn journal_cursor(game: &Game<NoopContentRuntimeHooks>) -> Option<usize> {
    match game.modes.current() {
        Some(GameMode::Journal { quest_cursor }) => Some(*quest_cursor),
        _ => None,
    }
}

fn aim(game: &Game<NoopContentRuntimeHooks>) -> Option<GridPos> {
    match game.modes.current() {
        Some(GameMode::SpellTargeting { cursor, .. }) => Some(*cursor),
        _ => None,
    }
}

#[test]
fn game_over_confirm_returns_to_the_main_menu() {
    let (mut game, _, _, _) = field(GameMode::GameOver);
    game.handle_game_over(cmd(GameCommand::Confirm));
    assert_eq!(game.modes.stack.len(), 1);
    assert!(matches!(game.modes.current(), Some(GameMode::MainMenu { selected: 0 })));
    assert_eq!(last_log(&game), "Main menu.");
}

#[test]
fn game_over_back_returns_to_the_main_menu_and_other_keys_do_nothing() {
    let (mut game, _, _, _) = field(GameMode::GameOver);
    game.handle_game_over(cmd(GameCommand::ListNext));
    assert!(matches!(game.modes.current(), Some(GameMode::GameOver)));
    assert!(game.log.is_empty());
    game.handle_game_over(cmd(GameCommand::ToggleDebug));
    assert!(game.debug_overlay);
    game.handle_game_over(cmd(GameCommand::Back));
    assert!(matches!(game.modes.current(), Some(GameMode::MainMenu { selected: 0 })));
}

#[test]
fn journal_cursor_stays_within_the_quest_list() {
    let (mut game, _, _, _) = field(GameMode::Journal { quest_cursor: 0 });
    game.narrative.quest_journal.push(quest("a"));
    game.narrative.quest_journal.push(quest("b"));
    game.handle_journal(cmd(GameCommand::ListPrev), None);
    assert_eq!(journal_cursor(&game), Some(0));
    game.handle_journal(cmd(GameCommand::ListNext), None);
    assert_eq!(journal_cursor(&game), Some(1));
    game.handle_journal(cmd(GameCommand::ListNext), None);
    assert_eq!(journal_cursor(&game), Some(1));
    game.handle_journal(cmd(GameCommand::ListPrev), None);
    assert_eq!(journal_cursor(&game), Some(0));
}

#[test]
fn journal_pointer_picks_a_listed_quest_and_back_closes() {
    let (mut game, _, _, _) = field(GameMode::Journal { quest_cursor: 0 });
    game.narrative.quest_journal.push(quest("a"));
    game.narrative.quest_journal.push(quest("b"));
    game.handle_journal(GameInput::Raw(InputEvent::MouseMove { col: 3, row: 4 }), Some(1));
    assert_eq!(journal_cursor(&game), Some(1));
    game.handle_journal(GameInput::Raw(InputEvent::MouseDown { button: MouseButton::Left, col: 3, row: 3 }), Some(5));
    assert_eq!(journal_cursor(&game), Some(1));
    game.handle_journal(GameInput::Raw(InputEvent::MouseDown { button: MouseButton::Left, col: 3, row: 3 }), Some(0));
    assert_eq!(journal_cursor(&game), Some(0));
    game.handle_journal(cmd(GameCommand::Back), None);
    assert!(matches!(game.modes.current(), Some(GameMode::Exploration)));
}

#[test]
fn spell_targeting_nudges_and_cancels() {
    let (mut game, _, _, _) = field(GameMode::SpellTargeting { spell: SpellKind::Fireball, cursor: pos(5, 5) });
    game.handle_spell_targeting(cmd(GameCommand::StepEast), SpellKind::Fireball, pos(5, 5), None);
    assert_eq!(aim(&game), Some(pos(6, 5)));
    game.handle_spell_targeting(cmd(GameCommand::StepNorth), SpellKind::Fireball, pos(6, 5), None);
    assert_eq!(aim(&game), Some(pos(6, 4)));
    game.handle_spell_targeting(GameInput::Raw(InputEvent::MouseMove { col: 1, row: 1 }), SpellKind::Fireball, pos(6, 4), Some(pos(9, 9)));
    assert_eq!(aim(&game), Some(pos(9, 9)));
    game.handle_spell_targeting(cmd(GameCommand::Back), SpellKind::Fireball, pos(9, 9), None);
    assert!(matches!(game.modes.current(), Some(GameMode::Exploration)));
    assert_eq!(last_log(&game), "Spell cancelled.");
}

#[test]
fn spell_targeting_click_off_the_world_cancels() {
    let (mut game, _, _, _) = field(GameMode::SpellTargeting { spell: SpellKind::Fireball, cursor: pos(5, 5) });
    let ev = GameInput::Raw(InputEvent::MouseDown { button: MouseButton::Left, col: 0, row: 0 });
    game.handle_spell_targeting(ev, SpellKind::Fireball, pos(5, 5), None);
    assert!(matches!(game.modes.current(), Some(GameMode::Exploration)));
    assert_eq!(last_log(&game), "Spell cancelled.");
    assert_eq!(game.fireball_cooldown_ticks, 0);
}

#[test]
fn spell_targeting_refuses_a_target_out_of_range() {
    let (mut game, _, _, _) = field(GameMode::SpellTargeting { spell: SpellKind::Fireball, cursor: pos(30, 30) });
    game.handle_spell_targeting(cmd(GameCommand::Confirm), SpellKind::Fireball, pos(30, 30), None);
    assert!(matches!(game.modes.current(), Some(GameMode::Exploration)));
    assert_eq!(last_log(&game), "Fireball is out of range.");
    assert_eq!(game.fireball_cooldown_ticks, 0);
}

#[test]
fn spell_targeting_click_casts_where_it_points() {
    let (mut game, _, wolf, _) = field(GameMode::SpellTargeting { spell: SpellKind::Fireball, cursor: pos(5, 5) });
    game.entities.set_pos(wolf, pos(12, 5));
    let hp = game.entities.stats(wolf).unwrap().hp;
    let ev = GameInput::Raw(InputEvent::MouseDown { button: MouseButton::Left, col: 0, row: 0 });
    game.handle_spell_targeting(ev, SpellKind::Fireball, pos(5, 5), Some(pos(12, 5)));
    assert!(matches!(game.modes.current(), Some(GameMode::Exploration)));
    assert!(game.fireball_cooldown_ticks > 0);
    assert!(!game.entities.is_alive(wolf) || game.entities.stats(wolf).unwrap().hp < hp);
}

#[test]
fn spell_on_cooldown_says_so() {
    let (mut game, _, _, _) = field(GameMode::SpellTargeting { spell: SpellKind::Fireball, cursor: pos(7, 7) });
    game.fireball_cooldown_ticks = 4;
    game.handle_spell_targeting(cmd(GameCommand::Confirm), SpellKind::Fireball, pos(7, 7), None);
    assert!(matches!(game.modes.current(), Some(GameMode::Exploration)));
    assert_eq!(last_log(&game), "Spell is still on cooldown.");
    assert_eq!(game.fireball_cooldown_ticks, 4);
}

#[test]
fn leaving_a_fight_logs_and_ends_it() {
    let (mut game, player, wolf, _) = field(GameMode::Exploration);
    game.modes.stack.pop();
    game.entities.set_pos(wolf, pos(6, 5));
    let mut rng = 1;
    let cs = CombatState::from_participants(
        vec![player, wolf],
        &game.entities,
        game.map.width,
        game.map.height,
        &mut rng,
        EncounterProfile { ruleset: CombatRuleset::Lethal, outcome_policy: EncounterOutcomePolicy::Plain },
    );
    game.modes.push(GameMode::Combat(cs.duplicate()));
    game.finish_combat_player_quit(&cs);
    assert_eq!(game.log[0], "You leave the fight.");
    assert_eq!(last_log(&game), "Combat ended.");
    assert!(matches!(game.modes.current(), Some(GameMode::Exploration)));
}

#[test]
fn action_requirements_check_target_and_range() {
    let (mut game, player, wolf, chest) = field(GameMode::Exploration);
    // Talking reaches four steps (Manhattan).
    game.entities.set_pos(wolf, pos(7, 7));
    assert!(game.action_requirements_met(player, ActionCommand::Talk { target: wolf }));
    game.entities.set_pos(wolf, pos(8, 7));
    assert!(!game.action_requirements_met(player, ActionCommand::Talk { target: wolf }));
    // Attacks and engagements need an adjacent target.
    game.entities.set_pos(wolf, pos(6, 4));
    assert!(game.action_requirements_met(player, ActionCommand::Attack { target: wolf }));
    let profile = EncounterProfile { ruleset: CombatRuleset::Lethal, outcome_policy: EncounterOutcomePolicy::Plain };
    assert!(game.action_requirements_met(player, ActionCommand::EngageCombat { target: wolf, profile }));
    game.entities.set_pos(wolf, pos(7, 4));
    assert!(!game.action_requirements_met(player, ActionCommand::Attack { target: wolf }));
    // Only a container opens; the wolf is none, and not hostile to itself.
    assert!(game.action_requirements_met(player, ActionCommand::OpenContainer { target: chest }));
    game.entities.set_pos(wolf, pos(6, 5));
    assert!(!game.action_requirements_met(player, ActionCommand::OpenContainer { target: wolf }));
    assert!(!game.action_requirements_met(wolf, ActionCommand::EngageCombat { target: player, profile }));
    // A move is met only on its destination.
    assert!(game.action_requirements_met(player, ActionCommand::MoveTo { target: pos(5, 5) }));
    assert!(!game.action_requirements_met(player, ActionCommand::MoveTo { target: pos(5, 6) }));
    assert_eq!(game.action_target_pos(ActionCommand::Talk { target: chest }), Some(pos(6, 6)));
}

#[test]
fn region_is_the_north_east_quarter() {
    let (game, _, _, _) = field(GameMode::Exploration);
    assert_eq!(game.maybe_region_id_for_pos(30, 10), Some("tavern_approach"));
    assert_eq!(game.maybe_region_id_for_pos(29, 10), None);
    assert_eq!(game.maybe_region_id_for_pos(35, 11), None);
    assert_eq!(game.maybe_region_id_for_pos(39, 0), Some("tavern_approach"));
}

#[test]
fn default_stats_and_status_labels() {
    assert_eq!(player_default_stats(), ActorStats::from_full(24, 24, 7, 6, 20));
    assert_eq!(status_label(QuestJournalStatus::InProgress), "In progress");
    assert_eq!(status_label(QuestJournalStatus::Failed), "Failed");
    assert_eq!(status_label(QuestJournalStatus::Completed), "Completed");
}

#[test]
fn dialogue_offers_only_choices_whose_requirements_hold() {
    let (mut game, _, _, _) = field(GameMode::Exploration);
    let welcome = game
        .content
        .dialogues
        .iter()
        .find(|(id, _)| *id == "guide")
        .map(|(_, t)| t.nodes[0].clone())
        .unwrap();
    assert_eq!(game.dialogue_visible_choice_indices(&welcome), vec![0, 1]);
    game.narrative.inventory.add("cellar_key", 1);
    assert_eq!(game.dialogue_visible_choice_indices(&welcome), vec![0, 1, 2]);
}

fn transfer_top(game: &Game<NoopContentRuntimeHooks>) -> (TransferFocus, usize, usize) {
    match game.modes.current() {
        Some(GameMode::ItemTransfer { focus, cursor_player, cursor_container, .. }) => (*focus, *cursor_player, *cursor_container),
        _ => panic!("transfer screen expected"),
    }
}

#[test]
fn item_transfer_moves_whole_stacks_both_ways() {
    let (mut game, _, _, chest) = field(GameMode::Exploration);
    game.modes.push(GameMode::ItemTransfer {
        container: chest,
        focus: TransferFocus::Player,
        cursor_player: 0,
        cursor_container: 0,
    });
    game.narrative.inventory.add("arrow", 12);
    game.narrative.inventory.add("cellar_key", 1);
    // Down to the key, then move it into the chest.
    game.handle_item_transfer(cmd(GameCommand::ListNext));
    assert_eq!(transfer_top(&game), (TransferFocus::Player, 1, 0));
    game.handle_item_transfer(cmd(GameCommand::ListNext));
    assert_eq!(transfer_top(&game), (TransferFocus::Player, 1, 0));
    game.handle_item_transfer(cmd(GameCommand::Confirm));
    assert_eq!(game.narrative.inventory.stacks.len(), 1);
    assert_eq!(game.narrative.inventory.stacks[0].id, "arrow");
    let chest_inv = &game.narrative.container_inventories[0];
    assert_eq!(chest_inv.container, chest.0);
    assert_eq!(chest_inv.inventory.stacks.len(), 1);
    assert_eq!(chest_inv.inventory.stacks[0].id, "cellar_key");
    // The cursor stays on the shortened list.
    assert_eq!(transfer_top(&game), (TransferFocus::Player, 0, 0));
    // The whole arrow stack goes too; then switch sides and take the key back.
    game.handle_item_transfer(cmd(GameCommand::Confirm));
    assert!(game.narrative.inventory.stacks.is_empty());
    assert_eq!(game.narrative.container_inventories[0].inventory.stacks[1].count, 12);
    game.handle_item_transfer(cmd(GameCommand::TransferFocusSide));
    assert_eq!(transfer_top(&game).0, TransferFocus::Container);
    game.handle_item_transfer(cmd(GameCommand::Confirm));
    assert_eq!(game.narrative.inventory.stacks[0].id, "cellar_key");
    assert_eq!(game.narrative.container_inventories[0].inventory.stacks.len(), 1);
    game.handle_item_transfer(cmd(GameCommand::ListPrev));
    assert_eq!(transfer_top(&game), (TransferFocus::Container, 0, 0));
    game.handle_item_transfer(cmd(GameCommand::Back));
    assert!(matches!(game.modes.current(), Some(GameMode::Exploration)));
}

fn menu_selection(game: &Game<NoopContentRuntimeHooks>) -> usize {
    match game.modes.current() {
        Some(GameMode::MainMenu { selected }) => *selected,
        _ => panic!("main menu expected"),
    }
}

#[test]
fn main_menu_moves_within_its_rows_and_enters_the_world() {
    let (mut game, _, _, _) = field(GameMode::MainMenu { selected: 0 });
    assert!(!game.handle_menu(GameInput::Command(GameCommand::ListPrev), None));
    assert_eq!(menu_selection(&game), 0);
    game.handle_menu(GameInput::Command(GameCommand::ListNext), None);
    game.handle_menu(GameInput::Command(GameCommand::ListNext), None);
    assert_eq!(menu_selection(&game), 1, "the selection stays on the last row");
    game.handle_menu(GameInput::Raw(InputEvent::MouseMove { col: 3, row: 4 }), Some(0));
    assert_eq!(menu_selection(&game), 0);
    game.handle_menu(GameInput::Raw(InputEvent::MouseMove { col: 3, row: 4 }), Some(7));
    assert_eq!(menu_selection(&game), 0, "a row past the menu is ignored");
    assert!(!game.handle_menu(GameInput::Command(GameCommand::Confirm), None));
    assert!(matches!(game.modes.stack.as_slice(), [GameMode::Exploration]));
    assert_eq!(game.log.last().map(|s| s.as_str()), Some("Entered world."));
    assert!(!game.quit_requested);
}

#[test]
fn main_menu_quits_and_asks_for_a_new_game_without_a_player() {
    let (mut game, player, _, _) = field(GameMode::MainMenu { selected: 1 });
    game.handle_menu(GameInput::Command(GameCommand::Confirm), None);
    assert!(game.quit_requested);

    let (mut game, _, _, _) = field(GameMode::MainMenu { selected: 0 });
    game.handle_menu(GameInput::Command(GameCommand::Back), None);
    assert!(game.quit_requested);

    let (mut game, _, _, _) = field(GameMode::MainMenu { selected: 0 });
    game.entities.despawn(player);
    assert!(game.handle_menu(GameInput::Command(GameCommand::Confirm), None));
    assert_eq!(menu_selection(&game), 0, "nothing changes until a new game is started");
}
