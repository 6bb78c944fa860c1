use tui_game_core::prop_migration::{infer_ground, migrate_level_props, prop_tile_ids};
use tui_game_core::world::EMPTY_PROP_ID;

#[test]
fn prop_ids_are_walls_connectors_and_trees() {
    assert_eq!(prop_tile_ids(), vec![1, 4, 5, 6, 7, 8]);
}

#[test]
fn grass_is_preferred_over_water_and_floor() {
    let tiles = vec![2, 2, 2, 0, 1, 3, 0, 0, 0];
    assert_eq!(infer_ground(4, &tiles, 3, 3, &prop_tile_ids()), 2);
}

#[test]
fn water_wins_over_floor_and_props_are_ignored() {
    let tiles = vec![1, 0, 3, 8];
    let ids = prop_tile_ids();
    assert_eq!(infer_ground(0, &tiles, 2, 2, &ids), 3);
    assert_eq!(infer_ground(3, &tiles, 2, 2, &ids), 3);
}

#[test]
fn unknown_ground_neighbour_is_taken_and_no_neighbour_means_grass() {
    let ids = prop_tile_ids();
    assert_eq!(infer_ground(0, &[1, 9], 2, 1, &ids), 9);
    assert_eq!(infer_ground(0, &[1], 1, 1, &ids), 2);
    assert_eq!(infer_ground(0, &[1, 4, 5, 6], 2, 2, &ids), 2);
}

#[test]
fn migration_moves_props_out_of_the_ground_layer() {
    let tiles = vec![2, 2, 2, 0, 1, 3, 0, 8, 0];
    let (ground, props) = migrate_level_props(&tiles, 3, 3).unwrap();
    assert_eq!(ground, vec![2, 2, 2, 0, 2, 3, 0, 3, 0]);
    let e = EMPTY_PROP_ID;
    assert_eq!(props, vec![e, e, e, e, 1, e, e, 8, e]);
}

#[test]
fn migration_refuses_a_layer_of_the_wrong_size() {
    assert_eq!(migrate_level_props(&vec![0, 0, 0], 2, 2), Err("tiles len 3 != 4".to_string()));
}
