use tui_game_core::content::NoopContentRuntimeHooks;
use tui_game_core::entity::{EntityId, GridPos};
use tui_game_core::game::bootstrap::{DEMO_CHEST_X, DEMO_CHEST_Y};
use tui_game_core::game::key_commands::default_game_key_map;
use tui_game_core::game::modes::GameMode;
use tui_game_core::game::state::Game;
use tui_game_core::game_content::content_pack;
use tui_game_core::level::{EntitySpawn, LevelFile};
use tui_game_core::world::{MapGrid, TileTable, FLOOR_TILE, WALL_TILE};

fn floor_level(w: u16, h: u16, spawns: Vec<EntitySpawn>) -> LevelFile {
    let table = TileTable::default_pack().expect("default pack");
    let map = MapGrid::filled(w, h, FLOOR_TILE, table);
    LevelFile::from_map(&map, "Test village", spawns)
}

fn spawn(kind: &str, x: i32, y: i32, glyph: char, name: &str) -> EntitySpawn {
    EntitySpawn { kind: kind.into(), x, y, glyph, name: name.into() }
}

fn load(level: &LevelFile) -> Result<Game<NoopContentRuntimeHooks>, String> {
    Game::from_level_file(level, default_game_key_map(), content_pack(), NoopContentRuntimeHooks)
}

#[test]
fn a_level_starts_a_game_with_its_spawns_and_the_player() {
    let mut level = floor_level(12, 10, vec![spawn("wolf", 3, 3, 'w', "Grey wolf"), spawn("wooden_chest", 5, 5, 'C', "Chest")]);
    level.player_spawn = Some(GridPos { x: 1, y: 2 });
    let g = load(&level).expect("level loads");
    assert!(matches!(g.modes.stack.as_slice(), [GameMode::Exploration]));
    assert_eq!(g.map.width, 12);
    assert_eq!(g.map.height, 10);
    assert_eq!(g.log, vec!["Loaded level: Test village".to_string()]);
    assert_eq!(g.rng_seed, 2);
    // The player is entity 0; the spawns follow in order.
    assert_eq!(g.entities.player, Some(EntityId(0)));
    assert_eq!(g.player_pos(), Some(GridPos { x: 1, y: 2 }));
    assert_eq!(g.entities.name[0], "You");
    assert_eq!(g.entities.pos(EntityId(1)), Some(GridPos { x: 3, y: 3 }));
    assert_eq!(g.entities.npc_kind[1].as_deref(), Some("wolf"));
    assert!(g.entities.blocks_movement[1]);
    assert_eq!(g.entities.name[1], "Grey wolf");
    assert!(g.entities.is_container[2]);
    assert!(g.entities.blocks_movement[2]);
    assert_eq!(g.entities.npc_kind[2], None);
    assert_eq!(g.player_stats().map(|s| s.hp), Some(24));
    // The player sees the cell it stands on, and what it sees is explored.
    let i = 2 * 12 + 1;
    assert!(g.visible[i]);
    assert!(g.explored[i]);
    assert_eq!(g.visible, g.explored);
    assert!(g.narrative.container_inventories.is_empty());
}

#[test]
fn the_weapons_chest_is_stocked_when_a_container_stands_on_its_cell() {
    let level = floor_level(100, 40, vec![spawn("wooden_chest", DEMO_CHEST_X, DEMO_CHEST_Y, 'C', "Chest")]);
    let g = load(&level).expect("level loads");
    assert_eq!(g.narrative.container_inventories.len(), 1);
    let c = &g.narrative.container_inventories[0];
    assert_eq!(c.container, 1);
    let stock: Vec<(String, u32)> = c.inventory.stacks.iter().map(|s| (s.id.clone(), s.count)).collect();
    assert_eq!(stock, vec![("iron_sword".to_string(), 1), ("hunting_bow".to_string(), 1), ("arrow".to_string(), 24)]);
    // Without a player spawn the player starts in the middle of the map.
    assert_eq!(g.player_pos(), Some(GridPos { x: 50, y: 20 }));
}

#[test]
fn a_level_that_cannot_start_says_why() {
    let bad_kind = floor_level(6, 6, vec![spawn("no_such_npc", 1, 1, 'x', "X")]);
    let e = load(&bad_kind).err().expect("unknown spawn kind");
    assert!(e.contains("no_such_npc"), "{e}");

    let mut short = floor_level(4, 4, vec![]);
    short.tiles.pop();
    assert_eq!(load(&short).err(), Some("tiles len 15 != width*height 16".to_string()));

    let mut walled = floor_level(6, 6, vec![]);
    walled.tiles[3 * 6 + 3] = WALL_TILE;
    assert_eq!(load(&walled).err(), Some("player start (3,3) must be a walkable tile (not solid)".to_string()));

    let empty = floor_level(0, 0, vec![]);
    assert_eq!(load(&empty).err(), Some("player start (0,0) is outside the map (0×0)".to_string()));
}
