use tui_game_core::content::{
    Condition, ContentPack, ContentRuntimeHooks, DialogueChoice, DialogueNode, DialogueTree, Disposition, Effect, EntityBlueprint,
    HostileTriggerDef, NoopContentRuntimeHooks, NpcBehaviorDef, QuestDef, ReactionDef, Rgb24,
};
use tui_game_core::narrative::NarrativeState;
use tui_game_core::game_content::content_pack;
use tui_game_core::item::{ItemCategory, ItemDef};
use tui_game_core::level::{EntitySpawn, LevelFile};
use tui_game_core::world::{MapGrid, TileTable};

fn one_choice_tree(id: &'static str, requires: Vec<Condition>, effects: Vec<Effect>) -> DialogueTree {
    DialogueTree {
        id,
        nodes: vec![DialogueNode {
            id,
            text: "t",
            effects: vec![],
            auto_next: None,
            choices: vec![DialogueChoice { label: "x", next: 0, action: None, requires, effects }],
        }],
    }
}

fn bad_tree() -> DialogueTree {
    one_choice_tree("bad", vec![], vec![Effect::GiveItem("not_an_item")])
}

fn item_a() -> &'static [ItemDef] {
    &[ItemDef { id: "a", name: "A", description: "d", glyph: 'a', category: ItemCategory::Mundane, weapon: None }]
}

#[test]
fn validate_rejects_unknown_give_item() {
    let pack = ContentPack {
        dialogues: vec![("bad", bad_tree())],
        default_dialogue: bad_tree(),
        quest_defs: vec![],
        entity_blueprints: vec![],
        item_defs: &[],
    };
    let err = pack.validate().unwrap_err();
    assert!(err.contains("effect item"), "{err}");
}

#[test]
fn validate_rejects_blueprint_world_item_unknown() {
    let bp = EntityBlueprint {
        kind: "x",
        display_name: "X",
        description: "x",
        default_glyph: 'x',
        default_fg: Rgb24::new(200, 200, 200),
        default_label: "X",
        is_actor: false,
        behavior: NpcBehaviorDef::idle(),
        dialogue_id: None,
        world_item: Some("nope"),
        is_container: false,
        faction_id: "test",
        disposition_to_player: Disposition::Neutral,
        base_max_hp: 1,
        base_strength: 1,
        base_agility: 1,
        base_speed: 1,
    };
    let pack = ContentPack {
        dialogues: vec![("bad", bad_tree())],
        default_dialogue: bad_tree(),
        quest_defs: vec![],
        entity_blueprints: vec![bp],
        item_defs: item_a(),
    };
    let err = pack.validate().unwrap_err();
    assert!(err.contains("world_item"), "{err}");
}

#[test]
fn validate_rejects_unknown_quest_id_in_effect() {
    let t = one_choice_tree("t", vec![], vec![Effect::SetQuestStage { quest: "missing", stage: 1 }]);
    let pack = ContentPack {
        dialogues: vec![("t", t.clone())],
        default_dialogue: t,
        quest_defs: vec![QuestDef { id: "known", title: "Known" }],
        entity_blueprints: vec![],
        item_defs: &[],
    };
    let err = pack.validate().unwrap_err();
    assert!(err.contains("effect quest unknown"), "{err}");
}

#[test]
fn validate_rejects_unknown_quest_id_in_dialogue_condition() {
    let t = one_choice_tree("good", vec![Condition::QuestStageAtLeast { quest: "missing", min: 1 }], vec![]);
    let pack = ContentPack {
        dialogues: vec![("good", t.clone())],
        default_dialogue: t,
        quest_defs: vec![QuestDef { id: "known", title: "Known" }],
        entity_blueprints: vec![],
        item_defs: item_a(),
    };
    let err = pack.validate().unwrap_err();
    assert!(err.contains("condition quest unknown"), "{err}");
}

#[test]
fn content_pack_validates() {
    let p = content_pack();
    p.validate().unwrap();
}

#[test]
fn validate_level_rejects_unknown_spawn_kind() {
    let p = content_pack();
    let table = TileTable::default_pack().expect("default pack");
    let map = MapGrid::filled(4, 4, 0, table);
    let level = LevelFile::from_map(
        &map,
        "x",
        vec![EntitySpawn { kind: "no_such_npc".into(), x: 1, y: 1, glyph: 'x', name: "X".into() }],
    );
    let err = p.validate_level(&level).unwrap_err();
    assert!(err.contains("no_such_npc"), "{err}");
}

#[test]
fn validate_level_rejects_unknown_tile_id() {
    let p = content_pack();
    let table = TileTable::default_pack().expect("default pack");
    let mut level = LevelFile::from_map(&MapGrid::filled(2, 2, 0, table), "x", vec![]);
    level.tiles[0] = 99;
    let err = p.validate_level(&level).unwrap_err();
    assert!(err.contains("unknown tile id"), "{err}");
}

#[test]
fn validate_level_accepts_known_spawns() {
    let p = content_pack();
    let table = TileTable::default_pack().expect("default pack");
    let map = MapGrid::filled(4, 4, 0, table);
    let level = LevelFile::from_map(
        &map,
        "ok",
        vec![EntitySpawn { kind: "wolf".into(), x: 1, y: 1, glyph: 'w', name: "Wolf".into() }],
    );
    assert_eq!(p.validate_level(&level), Ok(()));
}

#[test]
fn validate_level_rejects_player_spawn_on_wall() {
    let p = content_pack();
    let table = TileTable::default_pack().expect("default pack");
    let map = MapGrid::filled(3, 3, 1, table);
    let mut level = LevelFile::from_map(&map, "walls", vec![]);
    level.player_spawn = Some(tui_game_core::entity::GridPos { x: 1, y: 1 });
    let err = p.validate_level(&level).unwrap_err();
    assert_eq!(err, "player_spawn (1,1) is on a blocking tile (ground 1 prop 65535)");
}

#[test]
fn validate_level_rejects_outside_player_spawn() {
    let p = content_pack();
    let table = TileTable::default_pack().expect("default pack");
    let mut level = LevelFile::from_map(&MapGrid::filled(3, 2, 0, table), "x", vec![]);
    level.player_spawn = Some(tui_game_core::entity::GridPos { x: -1, y: 0 });
    let err = p.validate_level(&level).unwrap_err();
    assert_eq!(err, "player_spawn (-1,0) is outside map bounds 3×2");
}

#[test]
fn validate_rejects_duplicate_blueprint_kind() {
    let mut p = content_pack();
    let first = p.entity_blueprints[0].clone();
    p.entity_blueprints.push(first);
    let err = p.validate().unwrap_err();
    assert_eq!(err, "duplicate entity blueprint kind: guide");
}

#[test]
fn noop_hooks_keep_defaults() {
    let hooks = NoopContentRuntimeHooks;
    let tree = one_choice_tree("d", vec![], vec![]);
    let mut narrative = NarrativeState::new();
    let mut log: Vec<String> = Vec::new();
    assert_eq!(hooks.resolve_dialogue_text(&tree.nodes[0], &narrative), "t");
    assert_eq!(hooks.dialogue_start_node("d", &tree, &narrative), 0);
    assert!(hooks.hud_quest_status_lines(&narrative).is_empty());
    assert_eq!(hooks.training_spar_epilogue_node(3, 9), "post_spar_even");
    assert!(hooks.on_item_picked("cellar_key", &mut narrative, &mut log).is_ok());
    assert!(hooks.on_region_enter("cellar", &mut narrative, &mut log).is_ok());
    assert!(log.is_empty());
}

#[test]
fn validation_messages_name_the_first_broken_rule() {
    let pack = ContentPack {
        dialogues: vec![("bad", bad_tree())],
        default_dialogue: bad_tree(),
        quest_defs: vec![],
        entity_blueprints: vec![],
        item_defs: &[],
    };
    assert_eq!(pack.validate(), Err("dialogue bad node 0 choice 0 effect item unknown \"not_an_item\"".to_string()));
    let t = one_choice_tree("t", vec![], vec![Effect::SetQuestStage { quest: "missing", stage: 1 }]);
    let pack = ContentPack {
        dialogues: vec![("t", t.clone()), ("t", t.clone())],
        default_dialogue: t,
        quest_defs: vec![QuestDef { id: "known", title: "Known" }],
        entity_blueprints: vec![],
        item_defs: &[],
    };
    assert_eq!(pack.validate(), Err("duplicate dialogue id: t".to_string()));
    let p = content_pack();
    let table = TileTable::default_pack().expect("default pack");
    let map = MapGrid::filled(4, 4, 0, table);
    let level = LevelFile::from_map(
        &map,
        "x",
        vec![EntitySpawn { kind: "no_such_npc".into(), x: 1, y: 1, glyph: 'x', name: "X".into() }],
    );
    assert_eq!(p.validate_level(&level), Err("spawns[0].kind \"no_such_npc\" is not a known entity blueprint".to_string()));
}

#[test]
fn the_deer_flees_and_the_wolf_hunts() {
    let p = content_pack();
    let deer = p.blueprint("deer").unwrap();
    assert!(deer.behavior.reactions.iter().any(|r| matches!(r, ReactionDef::FleeFromThreat { .. })));
    assert!(deer.behavior.hostile_trigger.is_none());
    let wolf = p.blueprint("wolf").unwrap();
    assert_eq!(wolf.behavior.hostile_trigger, Some(HostileTriggerDef::PlayerWithinChebyshev { range: 6 }));
}
