use tui_game_core::combat::CombatRuleset;
use tui_game_core::content::{DemoQuestPhase, Effect, NoopContentRuntimeHooks, QuestJournalStatus};
use tui_game_core::entity::{EntityId, GridPos};
use tui_game_core::game::dialogue_input::DialoguePick;
use tui_game_core::game::key_commands::{default_game_key_map, GameCommand, GameInput};
use tui_game_core::game::modes::GameMode;
use tui_game_core::game::state::Game;
use tui_game_core::game_content::content_pack;
use tui_game_core::input::{InputEvent, Key, KeyChord, MouseButton};
use tui_game_core::level::{EntitySpawn, LevelFile};
use tui_game_core::narrative::NarrativeState;
use tui_game_core::world::{MapGrid, TileTable, FLOOR_TILE};

const GUIDE: EntityId = EntityId(1);
const TRAINER: EntityId = EntityId(2);

/// A small village: the player at (1, 1), the guide (entity 1) and the trainer (entity 2).
fn village() -> Game<NoopContentRuntimeHooks> {
    let map = MapGrid::filled(12, 12, FLOOR_TILE, TileTable::default_pack().unwrap());
    let spawns = vec![
        EntitySpawn { kind: "guide".into(), x: 3, y: 3, glyph: 'G', name: "Guide".into() },
        EntitySpawn { kind: "trainer".into(), x: 4, y: 4, glyph: 'T', name: "Trainer".into() },
    ];
    let mut level = LevelFile::from_map(&map, "Village", spawns);
    level.player_spawn = Some(GridPos { x: 1, y: 1 });
    Game::from_level_file(&level, default_game_key_map(), content_pack(), NoopContentRuntimeHooks).expect("village loads")
}

fn top(game: &Game<NoopContentRuntimeHooks>) -> Option<&GameMode> {
    game.modes.current()
}

fn node_and_cursor(game: &Game<NoopContentRuntimeHooks>) -> (usize, usize) {
    match top(game) {
        Some(GameMode::Dialogue { node_index, choice_cursor, .. }) => (*node_index, *choice_cursor),
        _ => panic!("dialogue expected"),
    }
}

fn key(c: char) -> GameInput {
    GameInput::Raw(InputEvent::Key(KeyChord { key: Key::Char(c), ctrl: false, alt: false, shift: false }))
}

fn confirm() -> GameInput {
    GameInput::Command(GameCommand::Confirm)
}

#[test]
fn the_guide_conversation_gives_and_takes_the_key() {
    let mut game = village();
    assert_eq!(game.start_dialogue(GUIDE), 0);
    assert_eq!(node_and_cursor(&game), (0, 0));
    // "I'll listen." starts the quest and moves to the key offer.
    game.handle_dialogue(confirm(), None);
    assert_eq!(node_and_cursor(&game), (1, 0));
    assert_eq!(game.narrative.quests.demo, DemoQuestPhase::TalkedToGuide);
    let row = &game.narrative.quest_journal[0];
    assert_eq!((row.quest.as_str(), row.title.as_str(), row.status), ("cellar_key", "The cellar key", QuestJournalStatus::InProgress));
    assert_eq!(row.lines, vec!["The guide has a task concerning the old cellar.".to_string()]);
    // Digit 1 takes the first choice: the key is handed over and the dialogue ends.
    game.handle_dialogue(key('1'), None);
    assert!(matches!(top(&game), Some(GameMode::Exploration)));
    assert_eq!(game.narrative.item_count("cellar_key"), 1);
    assert_eq!(game.narrative.quest_stage("cellar_key"), 1);
    assert_eq!(game.narrative.quests.demo, DemoQuestPhase::HasCellarKey);
    // With the key, the third choice is on offer: returning it closes the quest.
    game.start_dialogue(GUIDE);
    game.handle_dialogue(GameInput::Command(GameCommand::ListNext), None);
    game.handle_dialogue(GameInput::Command(GameCommand::ListNext), None);
    game.handle_dialogue(GameInput::Command(GameCommand::ListNext), None);
    assert_eq!(node_and_cursor(&game), (0, 2), "the cursor stays on the last choice");
    game.handle_dialogue(confirm(), None);
    assert_eq!(node_and_cursor(&game), (3, 0));
    assert_eq!(game.narrative.item_count("cellar_key"), 0);
    assert_eq!(game.narrative.quests.demo, DemoQuestPhase::ReturnedKey);
    assert_eq!(game.narrative.quest_status("cellar_key"), Some(QuestJournalStatus::Completed));
    assert_eq!(game.log.last().map(|s| s.as_str()), Some("The guide thanks you."), "the node's effect ran");
    // Back leaves the conversation.
    game.handle_dialogue(GameInput::Command(GameCommand::Back), None);
    assert!(matches!(top(&game), Some(GameMode::Exploration)));
}

#[test]
fn trainer_dialogue_starts_a_training_spar() {
    let mut game = village();
    game.start_dialogue(TRAINER);
    game.handle_dialogue(confirm(), None);
    match top(&game) {
        Some(GameMode::Combat(cs)) => assert!(matches!(cs.profile.ruleset, CombatRuleset::NonLethalSpar)),
        _ => panic!("trainer spar should enter combat mode"),
    }
}

#[test]
fn clicking_a_choice_takes_it_and_digits_past_the_list_do_nothing() {
    let mut game = village();
    game.start_dialogue(GUIDE);
    game.handle_dialogue(key('9'), None);
    assert_eq!(node_and_cursor(&game), (0, 0));
    let click = GameInput::Raw(InputEvent::MouseDown { button: MouseButton::Left, col: 2, row: 2 });
    game.handle_dialogue(click, Some(DialoguePick::Choice(1)));
    assert_eq!(node_and_cursor(&game), (2, 0), "\"Not interested.\" leads to the decline node");
}

#[test]
fn digit_keys_reach_the_dialogue_screen() {
    let mut game = village();
    let k = InputEvent::Key(KeyChord { key: Key::Char('2'), ctrl: false, alt: false, shift: false });
    assert_eq!(game.resolve_game_input(&k), None, "unbound in exploration");
    game.start_dialogue(GUIDE);
    assert_eq!(game.resolve_game_input(&k), Some(GameInput::Raw(k)));
}

#[test]
fn effects_run_in_order_and_stop_at_a_missing_item() {
    let mut n = NarrativeState::new();
    let mut log: Vec<String> = Vec::new();
    let effects = vec![
        Effect::Log("first"),
        Effect::AddQuestStage { quest: "q", delta: 2 },
        Effect::TakeItem("cellar_key"),
        Effect::Log("never"),
    ];
    let r = n.apply_effects(&mut log, &effects);
    assert_eq!(r.err().map(|e| e.reason), Some("no cellar_key to take".to_string()));
    assert_eq!(log, vec!["first".to_string()]);
    assert_eq!(n.quest_stage("q"), 2);
    n.apply_effects(&mut log, &vec![Effect::AddQuestStage { quest: "q", delta: u32::MAX }]).unwrap();
    assert_eq!(n.quest_stage("q"), u32::MAX, "stages saturate");
}
