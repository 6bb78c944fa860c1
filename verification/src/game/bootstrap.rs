//! Starting a game on a level: its terrain becomes the map, its spawns become entities
//! (as their blueprints say), and the player is placed at its start.

use vstd::prelude::*;

use crate::color::Color;
use crate::combat::{speeds_bounded, MAX_COMBAT_SPEED};
use crate::content::{ContentPack, ContentRuntimeHooks, EntityBlueprint};
use crate::entity::{ActorStats, EntityArena, EntityId, GridPos};
use crate::item::{first_loose_stack, Inventory, ItemStack};
use crate::narrative::{ContainerInventory, NarrativeState};
use crate::text::{decimal, signed_decimal, spec_decimal, spec_signed_decimal};
use crate::world::cell_visible;
use super::key_commands::GameKeyMap;
use super::modes::{GameMode, GameModeStack};
use super::state::{player_default_stats, Game, FOW_RADIUS};
use crate::level::{first_def_with_id, EntitySpawn, LevelFile};
use crate::search::lemma_first_match_ext;
use crate::world::{MapGrid, TileDef, TileTable};

verus! {

/// The terrain table of a level: its tile definitions, in order.
pub open spec fn table_of_level(level: &LevelFile, t: &TileTable) -> bool {
    &&& t.defs@.len() == level.tile_defs@.len()
    &&& forall|k: int|
        0 <= k < t.defs@.len() ==> {
            let (a, b) = (#[trigger] t.defs@[k], level.tile_defs@[k]);
            a.idx == b.id && a.name == b.name && a.glyph == b.glyph && a.blocks_movement == b.blocks_movement
                && a.blocks_sight == b.blocks_sight
        }
}

/// The map of a level: its size, ground tiles and terrain table.
pub open spec fn map_of_level(level: &LevelFile, m: &MapGrid) -> bool {
    &&& m.width == level.width
    &&& m.height == level.height
    &&& m.tiles@ == level.tiles@
    &&& table_of_level(level, &m.table)
}

/// The level's ground tile count matches its size.
pub open spec fn level_tiles_fit(level: &LevelFile) -> bool {
    level.tiles@.len() == level.width * level.height
}

/// Message when the ground layer does not match the level's size.
pub open spec fn tile_count_msg(level: &LevelFile) -> Seq<char> {
    "tiles len "@ + crate::text::spec_decimal(level.tiles@.len()) + " != width*height "@ + crate::text::spec_decimal(
        (level.width * level.height) as nat,
    )
}

/// Ground cell `(x, y)` of a level blocks movement: its first definition is solid, or it
/// has none.
pub open spec fn level_cell_blocks(level: &LevelFile, x: int, y: int) -> bool {
    match first_def_with_id(level.tile_defs@, level.tiles@[y * level.width + x]) {
        Some(j) => level.tile_defs@[j].blocks_movement,
        None => true,
    }
}

/// The terrain table built from a level's tile definitions.
pub fn level_tile_table(level: &LevelFile) -> (t: TileTable)
    ensures
        table_of_level(level, &t),
{
    let mut defs: Vec<TileDef> = Vec::new();
    let mut k: usize = 0;
    while k < level.tile_defs.len()
        invariant
            k <= level.tile_defs@.len(),
            defs@.len() == k,
            forall|j: int|
                0 <= j < k ==> {
                    let (a, b) = (#[trigger] defs@[j], level.tile_defs@[j]);
                    a.idx == b.id && a.name == b.name && a.glyph == b.glyph && a.blocks_movement == b.blocks_movement
                        && a.blocks_sight == b.blocks_sight
                },
        decreases level.tile_defs@.len() - k,
    {
        let d = level.tile_defs[k];
        defs.push(
            TileDef {
                idx: d.id,
                name: d.name,
                glyph: d.glyph,
                blocks_movement: d.blocks_movement,
                blocks_sight: d.blocks_sight,
            },
        );
        k = k + 1;
    }
    TileTable { defs }
}

/// The map of a level, or a message when its ground layer does not match its size.
pub fn level_to_map(level: &LevelFile) -> (r: Result<MapGrid, String>)
    ensures
        r is Ok <==> level_tiles_fit(level),
        r matches Ok(m) ==> m.wf() && map_of_level(level, &m),
        r matches Err(e) ==> e@ == tile_count_msg(level),
{
    assert((level.width as int) * (level.height as int) <= 65535 * 65535) by (nonlinear_arith)
        requires level.width <= 65535, level.height <= 65535;
    let expected: u64 = (level.width as u64) * (level.height as u64);
    if level.tiles.len() as u64 != expected {
        let msg = String::from_str("tiles len ").concat(crate::text::decimal(level.tiles.len() as u64).as_str()).concat(
            " != width*height ",
        ).concat(crate::text::decimal(expected).as_str());
        return Err(msg);
    }
    let table = level_tile_table(level);
    let tiles = level.tiles.clone();
    Ok(MapGrid { width: level.width, height: level.height, tiles, table })
}

/// On the map of a level, a cell blocks movement exactly when the level says so.
pub proof fn lemma_map_blocks(level: &LevelFile, m: &MapGrid, x: int, y: int)
    requires
        map_of_level(level, m),
        m.wf(),
        m.spec_in_bounds(x, y),
    ensures
        m.spec_blocks_movement(x, y) == level_cell_blocks(level, x, y),
{
    m.lemma_cell_index(x, y);
    let t = m.spec_tile(x, y);
    let p = |j: int| m.table.defs@[j].idx == t;
    let q = |j: int| level.tile_defs@[j].id == t;
    assert forall|j: int| 0 <= j < m.table.defs@.len() implies #[trigger] p(j) == q(j) by {
        assert(m.table.defs@[j].idx == level.tile_defs@[j].id);
    }
    lemma_first_match_ext(m.table.defs@.len() as int, p, q);
    assert(m.table.spec_def_index(t) == crate::search::first_match(m.table.defs@.len() as int, p));
    assert(first_def_with_id(level.tile_defs@, t) == crate::search::first_match(level.tile_defs@.len() as int, q));
    assert(t == level.tiles@[y * level.width + x]);
    crate::search::lemma_first_match(m.table.defs@.len() as int, p);
    if let Some(j) = m.table.spec_def_index(t) {
        assert(m.table.defs@[j].blocks_movement == level.tile_defs@[j].blocks_movement);
    }
}

/// Every blueprint found by kind has a speed within the combat speed limit.
pub open spec fn blueprint_speeds_bounded(content: &ContentPack) -> bool {
    forall|kind: Seq<char>| #[trigger] content.spec_blueprint(kind) matches Some(bp) ==> bp.base_speed <= MAX_COMBAT_SPEED
}

/// Stats of a fresh entity of blueprint `bp`.
pub open spec fn blueprint_stats_of(bp: EntityBlueprint) -> ActorStats {
    ActorStats { hp: bp.base_max_hp, max_hp: bp.base_max_hp, strength: bp.base_strength, agility: bp.base_agility, speed: bp.base_speed }
}

/// Slot `j` of `arena` holds what spawn `s` places with blueprint `bp`: a live entity at
/// the spawn's cell with its glyph and name and the blueprint's color; an actor is an NPC
/// of the spawn's kind; a world item is a single pickup that does not block, otherwise a
/// container or an actor blocks movement; stats are the blueprint's at full health.
pub open spec fn spawned_as(arena: &EntityArena, j: int, s: EntitySpawn, bp: EntityBlueprint) -> bool {
    &&& arena.alive@[j]
    &&& arena.position@[j] == Some(GridPos { x: s.x, y: s.y })
    &&& arena.glyph@[j] == s.glyph
    &&& arena.fg@[j] == (Color { r: bp.default_fg.r, g: bp.default_fg.g, b: bp.default_fg.b })
    &&& arena.name@[j]@ == s.name@
    &&& (if bp.is_actor {
        arena.npc_kind@[j] matches Some(k) && k@ == s.kind@
    } else {
        arena.npc_kind@[j] is None
    })
    &&& (match bp.world_item {
        Some(id) => arena.item@[j] matches Some(st) && st.id@ == id@ && st.count == 1 && st.equipped is None,
        None => arena.item@[j] is None,
    })
    &&& arena.blocks_movement@[j] == if bp.world_item is Some {
        false
    } else {
        bp.is_container || bp.is_actor
    }
    &&& arena.is_container@[j] == bp.is_container
    &&& arena.combat_stats@[j] == blueprint_stats_of(bp)
}

/// Slot `j + 1` (after the player's) holds spawn `j` of `level`, placed with its blueprint.
pub open spec fn spawn_placed(content: &ContentPack, level: &LevelFile, arena: &EntityArena, j: int) -> bool {
    match content.spec_blueprint(level.spawns@[j].kind@) {
        Some(bp) => spawned_as(arena, j + 1, level.spawns@[j], bp),
        None => false,
    }
}

/// Slots `1..n + 1` hold the first `n` spawns of `level`.
pub open spec fn spawns_placed(content: &ContentPack, level: &LevelFile, arena: &EntityArena, n: int) -> bool {
    forall|j: int| 0 <= j < n ==> #[trigger] spawn_placed(content, level, arena, j)
}


/// Places the spawns of `level`, in order, after the one entity `arena` holds (the
/// player): slot `j + 1` holds spawn `j` (see [`spawned_as`]).
pub fn place_spawns(content: &ContentPack, level: &LevelFile, arena: &mut EntityArena)
    requires
        old(arena).wf(),
        speeds_bounded(old(arena)),
        old(arena).len() == 1,
        old(arena).next_id == 1,
        blueprint_speeds_bounded(content),
        level.spawns@.len() + 1 < u32::MAX,
        forall|j: int| 0 <= j < level.spawns@.len() ==> content.spec_blueprint((#[trigger] level.spawns@[j]).kind@) is Some,
    ensures
        final(arena).wf(),
        speeds_bounded(final(arena)),
        final(arena).len() == level.spawns@.len() + 1,
        final(arena).next_id == level.spawns@.len() + 1,
        final(arena).player == old(arena).player,
        final(arena).same_slot(old(arena), 0),
        spawns_placed(content, level, final(arena), level.spawns@.len() as int),
{
    let ghost a_init = *arena;
    let mut i: usize = 0;
    while i < level.spawns.len()
        invariant
            blueprint_speeds_bounded(content),
            level.spawns@.len() + 1 < u32::MAX,
            forall|j: int| 0 <= j < level.spawns@.len() ==> content.spec_blueprint((#[trigger] level.spawns@[j]).kind@) is Some,
            i <= level.spawns@.len(),
            a_init.len() == 1,
            arena.wf(),
            speeds_bounded(&*arena),
            arena.len() == i + 1,
            arena.next_id == i + 1,
            arena.player == a_init.player,
            arena.same_slot(&a_init, 0),
            spawns_placed(content, level, &*arena, i as int),
        decreases level.spawns@.len() - i,
    {
        let s = &level.spawns[i];
        assert(content.spec_blueprint(level.spawns@[i as int].kind@) is Some);
        let bp = match content.blueprint(s.kind.as_str()) {
            Some(b) => b,
            None => {
                return;
            },
        };
        let stats = match content.blueprint_stats(s.kind.as_str()) {
            Some(st) => st,
            None => {
                return;
            },
        };
        let npc = if bp.is_actor {
            Some(String::from_str(s.kind.as_str()))
        } else {
            None
        };
        let item = match bp.world_item {
            Some(id) => Some(ItemStack::new(id, 1)),
            None => None,
        };
        let blocks = if item.is_some() {
            false
        } else if bp.is_container {
            true
        } else {
            npc.is_some()
        };
        let fg = Color::rgb(bp.default_fg.r, bp.default_fg.g, bp.default_fg.b);
        let ghost a0 = *arena;
        let eid = arena.spawn(
            GridPos { x: s.x, y: s.y },
            s.glyph,
            fg,
            String::from_str(s.name.as_str()),
            blocks,
            npc,
            item,
            bp.is_container,
        );
        let ghost a1 = *arena;
        arena.set_stats(eid, stats);
        proof {
            assert(eid.0 == i + 1);
            assert(stats == blueprint_stats_of(*bp));
            assert(spawn_placed(content, level, &*arena, i as int));
            assert forall|j: int| 0 <= j < i + 1 implies #[trigger] spawn_placed(content, level, &*arena, j) by {
                if j < i {
                    assert(spawn_placed(content, level, &a0, j));
                    assert(a1.same_slot(&a0, j + 1));
                }
            }
            assert forall|j: int| 0 <= j < arena.combat_stats@.len() implies #[trigger] arena.combat_stats@[j].speed
                <= MAX_COMBAT_SPEED by {
                if j < i + 1 {
                    assert(a1.same_slot(&a0, j));
                    assert(a0.combat_stats@[j].speed <= MAX_COMBAT_SPEED);
                }
            }
            assert(a1.same_slot(&a0, 0));
        }
        i = i + 1;
    }
}

/// Where the player starts: the level's spawn point, else the middle of the map.
pub open spec fn player_start(level: &LevelFile) -> GridPos {
    match level.player_spawn {
        Some(p) => p,
        None => GridPos { x: (level.width / 2) as i32, y: (level.height / 2) as i32 },
    }
}

/// `"(x,y)"` for the player start.
pub open spec fn start_text(p: GridPos) -> Seq<char> {
    "player start ("@ + spec_signed_decimal(p.x as int) + ","@ + spec_signed_decimal(p.y as int) + ")"@
}

/// Why the player cannot start where the level puts it, if it cannot: off the map, or on a
/// cell that blocks movement.
pub open spec fn start_error(level: &LevelFile) -> Option<Seq<char>> {
    let p = player_start(level);
    if !(0 <= p.x < level.width && 0 <= p.y < level.height) {
        Some(
            start_text(p) + " is outside the map ("@ + spec_decimal(level.width as nat) + "×"@ + spec_decimal(
                level.height as nat,
            ) + ")"@,
        )
    } else if level_cell_blocks(level, p.x as int, p.y as int) {
        Some(start_text(p) + " must be a walkable tile (not solid)"@)
    } else {
        None
    }
}

/// A game can start on `level` with `content`: the content and the level pass their checks,
/// the ground layer matches the size and the player start is a free cell of the map.
pub open spec fn level_loads(content: &ContentPack, level: &LevelFile) -> bool {
    &&& content.spec_valid()
    &&& content.spec_level_valid(level)
    &&& level_tiles_fit(level)
    &&& start_error(level) is None
}

/// The message a failed start reports: that of the first check that fails, in the order of
/// [`level_loads`].
pub open spec fn load_error(content: &ContentPack, level: &LevelFile) -> Option<Seq<char>> {
    if !content.spec_valid() {
        content.spec_first_error()
    } else if !content.spec_level_valid(level) {
        content.spec_level_error(level)
    } else if !level_tiles_fit(level) {
        Some(tile_count_msg(level))
    } else {
        start_error(level)
    }
}

/// Cell of the chest that a new game stocks with weapons.
pub const DEMO_CHEST_X: i32 = 89;
pub const DEMO_CHEST_Y: i32 = 31;

/// The stocked chest holds an iron sword, a hunting bow and 24 arrows, in that order.
pub open spec fn demo_chest_stocked(inv: &Inventory) -> bool {
    &&& inv.stacks@.len() == 3
    &&& inv.stacks@[0].id@ == "iron_sword"@ && inv.stacks@[0].count == 1 && inv.stacks@[0].equipped is None
    &&& inv.stacks@[1].id@ == "hunting_bow"@ && inv.stacks@[1].count == 1 && inv.stacks@[1].equipped is None
    &&& inv.stacks@[2].id@ == "arrow"@ && inv.stacks@[2].count == 24 && inv.stacks@[2].equipped is None
}

/// The contents of the stocked chest.
pub fn demo_chest_inventory() -> (inv: Inventory)
    ensures
        demo_chest_stocked(&inv),
{
    let mut inv = Inventory::new();
    proof {
        reveal_strlit("iron_sword");
        reveal_strlit("hunting_bow");
        reveal_strlit("arrow");
        assert(first_loose_stack(inv.stacks@, "iron_sword"@) is None);
    }
    inv.add("iron_sword", 1);
    proof {
        let p = |j: int| inv.stacks@[j].id@ == "hunting_bow"@ && inv.stacks@[j].equipped is None;
        assert forall|k: int| 0 <= k < inv.stacks@.len() implies !#[trigger] p(k) by {
            assert(inv.stacks@[k].id@.len() != "hunting_bow"@.len());
        }
        crate::search::lemma_first_match_none(inv.stacks@.len() as int, p);
        assert(first_loose_stack(inv.stacks@, "hunting_bow"@) is None);
    }
    inv.add("hunting_bow", 1);
    proof {
        let p = |j: int| inv.stacks@[j].id@ == "arrow"@ && inv.stacks@[j].equipped is None;
        assert forall|k: int| 0 <= k < inv.stacks@.len() implies !#[trigger] p(k) by {
            assert(inv.stacks@[k].id@.len() != "arrow"@.len());
        }
        crate::search::lemma_first_match_none(inv.stacks@.len() as int, p);
        assert(first_loose_stack(inv.stacks@, "arrow"@) is None);
    }
    inv.add("arrow", 24);
    inv
}

/// `g` is the game that starts on `level`: exploring the level's map, with the player in
/// slot 0 at the start cell and the spawns placed in order after it (see [`spawns_placed`]),
/// a fresh narrative whose only container stock is the weapons chest (when a container
/// stands on its cell), the player's view computed, and a log line naming the level.
pub open spec fn level_bootstrapped<H: ContentRuntimeHooks>(
    level: &LevelFile,
    content: &ContentPack,
    key_map: GameKeyMap,
    hooks: H,
    g: &Game<H>,
) -> bool {
    let n = level.spawns@.len() as int;
    let start = player_start(level);
    let cells = g.map.tiles@.len() as int;
    &&& g.wf()
    &&& g.modes.stack@ == seq![GameMode::Exploration]
    &&& map_of_level(level, &g.map)
    &&& g.entities.len() == n + 1
    &&& spawns_placed(content, level, &g.entities, n)
    &&& g.entities.player == Some(EntityId(0))
    &&& g.entities.alive@[0]
    &&& g.entities.position@[0] == Some(start)
    &&& g.entities.glyph@[0] == '@'
    &&& g.entities.fg@[0] == (Color { r: 255, g: 235, b: 180 })
    &&& g.entities.name@[0]@ == "You"@
    &&& !g.entities.blocks_movement@[0]
    &&& g.entities.npc_kind@[0] is None
    &&& g.entities.item@[0] is None
    &&& !g.entities.is_container@[0]
    &&& g.entities.combat_stats@[0] == (ActorStats { hp: 24, max_hp: 24, strength: 7, agility: 6, speed: 20 })
    &&& g.content == *content
    &&& g.hooks == hooks
    &&& g.key_map == key_map
    &&& g.narrative.inventory.stacks@.len() == 0
    &&& g.narrative.quest_stages@.len() == 0
    &&& g.narrative.quest_journal@.len() == 0
    &&& match g.entities.spec_first_container_at(DEMO_CHEST_X, DEMO_CHEST_Y) {
        Some(c) => g.narrative.container_inventories@.len() == 1 && g.narrative.container_inventories@[0].container == c as u32
            && demo_chest_stocked(&g.narrative.container_inventories@[0].inventory),
        None => g.narrative.container_inventories@.len() == 0,
    }
    &&& g.visible@.len() == cells
    &&& g.explored@.len() == cells
    &&& forall|i: int| 0 <= i < cells ==> #[trigger] g.visible@[i] == cell_visible(&g.map, start, FOW_RADIUS as int, i)
    &&& forall|i: int| 0 <= i < cells ==> #[trigger] g.explored@[i] == g.visible@[i]
    &&& g.rng_seed == 2
    &&& g.log@.len() == 1
    &&& g.log@[0]@ == "Loaded level: "@ + level.name@
    &&& g.menu_items@ == seq!["Start game", "Quit"]
    &&& !g.quit_requested
    &&& !g.debug_overlay
    &&& g.surface_tick == 0
    &&& g.player_walk_path@.len() == 0
    &&& g.player_walk_goal is None
    &&& g.player_walk_tick_cooldown == 0
    &&& g.npc_combat_ai_tick_cooldown == 0
    &&& g.npc_exploration_ai_tick_cooldown == 0
    &&& g.pending_forced_dialogue is None
    &&& g.pending_player_action is None
    &&& g.turn_clock is None
    &&& g.active_projectiles@.len() == 0
    &&& g.pending_hits@.len() == 0
    &&& g.active_area_effects@.len() == 0
    &&& g.fireball_cooldown_ticks == 0
}

fn falses(n: usize) -> (v: Vec<bool>)
    ensures
        v@.len() == n,
        forall|i: int| 0 <= i < n ==> !#[trigger] v@[i],
{
    let mut v: Vec<bool> = Vec::new();
    while v.len() < n
        invariant
            v@.len() <= n,
            forall|i: int| 0 <= i < v@.len() ==> !#[trigger] v@[i],
        decreases n - v@.len(),
    {
        v.push(false);
    }
    v
}

impl<H: ContentRuntimeHooks> Game<H> {
    /// Starts a game on `level` with `content` and `hooks`: checks the content and the
    /// level, builds the map, places the spawns and the player, stocks the weapons chest and
    /// computes the player's view. Reading the level or a terrain pack from disk is the
    /// caller's part.
    pub fn from_level_file(level: &LevelFile, key_map: GameKeyMap, content: ContentPack, hooks: H) -> (r: Result<Game<H>, String>)
        requires
            blueprint_speeds_bounded(&content),
            level.spawns@.len() + 1 < u32::MAX,
        ensures
            r is Ok <==> level_loads(&content, level),
            r matches Err(e) ==> load_error(&content, level) == Some(e@),
            r matches Ok(g) ==> level_bootstrapped(level, &content, key_map, hooks, &g),
    {
        match content.validate() {
            Ok(()) => {},
            Err(e) => {
                return Err(e);
            },
        }
        match content.validate_level(level) {
            Ok(()) => {},
            Err(e) => {
                return Err(e);
            },
        }
        let map = match level_to_map(level) {
            Ok(m) => m,
            Err(e) => {
                return Err(e);
            },
        };
        let (px, py): (i32, i32) = match level.player_spawn {
            Some(p) => (p.x, p.y),
            None => ((map.width / 2) as i32, (map.height / 2) as i32),
        };
        let at = String::from_str("player start (").concat(signed_decimal(px as i64).as_str()).concat(",").concat(
            signed_decimal(py as i64).as_str(),
        ).concat(")");
        if !map.in_bounds(px, py) {
            return Err(
                at.concat(" is outside the map (").concat(decimal(map.width as u64).as_str()).concat("×").concat(
                    decimal(map.height as u64).as_str(),
                ).concat(")"),
            );
        }
        let blocked = map.blocks_movement(px, py);
        proof {
            lemma_map_blocks(level, &map, px as int, py as int);
        }
        if blocked {
            return Err(at.concat(" must be a walkable tile (not solid)"));
        }
        let mut entities = EntityArena::new();
        let player = entities.spawn(
            GridPos { x: px, y: py },
            '@',
            Color::rgb(255, 235, 180),
            String::from_str("You"),
            false,
            None,
            None,
            false,
        );
        entities.set_player(player);
        entities.set_stats(player, player_default_stats());
        let ghost e0 = entities;
        place_spawns(&content, level, &mut entities);
        let mut narrative = NarrativeState::new();
        if let Some(cid) = entities.first_container_at(DEMO_CHEST_X, DEMO_CHEST_Y) {
            narrative.container_inventories.push(ContainerInventory { container: cid.0, inventory: demo_chest_inventory() });
        }
        let cells = map.tiles.len();
        proof {
            assert(player.0 == 0);
            assert(entities.same_slot(&e0, 0));
        }
        let mut log: Vec<String> = Vec::new();
        log.push(String::from_str("Loaded level: ").concat(level.name.as_str()));
        let mut modes = GameModeStack::new();
        modes.push(GameMode::Exploration);
        let mut game = Game {
            modes,
            map,
            entities,
            explored: falses(cells),
            visible: falses(cells),
            narrative,
            content,
            hooks,
            rng_seed: 2,
            log,
            menu_items: vec!["Start game", "Quit"],
            quit_requested: false,
            debug_overlay: false,
            surface_tick: 0,
            player_walk_path: Vec::new(),
            player_walk_goal: None,
            player_walk_tick_cooldown: 0,
            npc_combat_ai_tick_cooldown: 0,
            npc_exploration_ai_tick_cooldown: 0,
            pending_forced_dialogue: None,
            pending_player_action: None,
            turn_clock: None,
            key_map,
            active_projectiles: Vec::new(),
            pending_hits: Vec::new(),
            active_area_effects: Vec::new(),
            fireball_cooldown_ticks: 0,
        };
        let ghost g0 = game;
        proof {
            assert(game.modes.stack@ =~= seq![GameMode::Exploration]);
            assert(g0.visible@ =~= super::state::grown(g0.visible@, cells as int));
            assert(g0.explored@ =~= super::state::grown(g0.explored@, cells as int));
        }
        game.refresh_fow();
        Ok(game)
    }
}

} // verus!
