use tui_game_core::content::NoopContentRuntimeHooks;
use tui_game_core::entity::GridPos;
use tui_game_core::game::key_commands::{default_game_key_map, GameCommand, GameInput};
use tui_game_core::game::modes::GameMode;
use tui_game_core::game::state::Game;
use tui_game_core::game_content::content_pack;
use tui_game_core::input::{InputEvent, MouseButton};
use tui_game_core::item::{EquipSlot, ItemStack, StackEquipped};
use tui_game_core::level::LevelFile;
use tui_game_core::world::{MapGrid, TileTable, FLOOR_TILE};

fn pack_open(stacks: Vec<(&str, u32)>) -> Game<NoopContentRuntimeHooks> {
    let map = MapGrid::filled(8, 8, FLOOR_TILE, TileTable::default_pack().unwrap());
    let mut level = LevelFile::from_map(&map, "Room", vec![]);
    level.player_spawn = Some(GridPos { x: 1, y: 1 });
    let mut game = Game::from_level_file(&level, default_game_key_map(), content_pack(), NoopContentRuntimeHooks).unwrap();
    for (id, count) in stacks {
        game.narrative.inventory.stacks.push(ItemStack { id: id.to_string(), count, equipped: None });
    }
    game.modes.push(GameMode::Inventory { cursor: 0 });
    game
}

fn cmd(c: GameCommand) -> GameInput {
    GameInput::Command(c)
}

fn cursor(game: &Game<NoopContentRuntimeHooks>) -> usize {
    match game.modes.current() {
        Some(GameMode::Inventory { cursor }) => *cursor,
        _ => panic!("inventory expected"),
    }
}

fn last_log(game: &Game<NoopContentRuntimeHooks>) -> &str {
    game.log.last().map(|s| s.as_str()).unwrap_or("")
}

#[test]
fn using_a_tonic_spends_one_and_says_it_had_no_effect() {
    let mut game = pack_open(vec![("health_tonic", 2), ("cellar_key", 1)]);
    game.handle_inventory(cmd(GameCommand::InventoryUse), None);
    assert_eq!(game.narrative.inventory.stacks[0].count, 1);
    assert!(last_log(&game).starts_with("[+] Used ") && last_log(&game).ends_with(" (no effect yet)."));
    game.handle_inventory(cmd(GameCommand::InventoryUse), None);
    assert_eq!(game.narrative.inventory.stacks.len(), 1, "the empty stack goes");
    assert_eq!(cursor(&game), 0);
    game.handle_inventory(cmd(GameCommand::InventoryUse), None);
    assert_eq!(last_log(&game), "That item is not consumable.");
}

#[test]
fn equipping_a_second_ring_returns_the_first_to_the_pack() {
    let mut game = pack_open(vec![("brass_ring", 1), ("brass_ring", 1)]);
    game.handle_inventory(cmd(GameCommand::InventoryEquip), None);
    assert_eq!(game.narrative.inventory.stacks[0].equipped, Some(StackEquipped::Wear(EquipSlot::Ring)));
    assert!(last_log(&game).starts_with("[+] Equipped "));
    game.handle_inventory(cmd(GameCommand::ListNext), None);
    game.handle_inventory(cmd(GameCommand::InventoryEquip), None);
    assert_eq!(game.narrative.inventory.stacks[0].equipped, None);
    assert_eq!(game.narrative.inventory.stacks[1].equipped, Some(StackEquipped::Wear(EquipSlot::Ring)));
    // Equipping the worn ring again takes it off.
    game.handle_inventory(cmd(GameCommand::InventoryEquip), None);
    assert_eq!(game.narrative.inventory.stacks[1].equipped, None);
    assert!(last_log(&game).starts_with("[-] Unequipped "));
}

#[test]
fn arrows_go_into_the_quiver_and_clicks_select_and_activate() {
    let mut game = pack_open(vec![("cellar_key", 1), ("arrow", 12), ("mystery", 1)]);
    game.handle_inventory(GameInput::Raw(InputEvent::MouseMove { col: 1, row: 1 }), Some(2));
    assert_eq!(cursor(&game), 2);
    game.handle_inventory(cmd(GameCommand::InventoryEquip), None);
    assert_eq!(last_log(&game), "mystery: unknown item.");
    let click = GameInput::Raw(InputEvent::MouseDown { button: MouseButton::Left, col: 1, row: 1 });
    game.handle_inventory(click, Some(1));
    assert_eq!(cursor(&game), 1);
    assert_eq!(game.narrative.inventory.stacks[1].equipped, Some(StackEquipped::Quiver));
    assert!(last_log(&game).ends_with(" into quiver."));
    game.handle_inventory(cmd(GameCommand::InventoryEquip), None);
    assert!(last_log(&game).ends_with(" from quiver."));
    game.handle_inventory(cmd(GameCommand::ListPrev), None);
    game.handle_inventory(cmd(GameCommand::InventoryEquip), None);
    assert_eq!(last_log(&game), "Use e to equip weapons or load ammo; u uses consumables.");
    game.handle_inventory(cmd(GameCommand::Back), None);
    assert!(matches!(game.modes.current(), Some(GameMode::Exploration)));
}
