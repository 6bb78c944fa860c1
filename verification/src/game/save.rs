//! Saved games: what a save holds, and taking one up into a running game. Turning a save
//! into text and back, and reading or writing it, is the shell's work.

use vstd::prelude::*;

use crate::combat::speeds_bounded;
use crate::content::ContentRuntimeHooks;
use crate::entity::EntityArena;
use crate::game::modes::{GameMode, GameModeStack};
use crate::item::{Inventory, ItemStack};
use crate::narrative::{ContainerInventory, JournalQuest, QuestStage};
use crate::world::TileTable;
use crate::game::state::{fow_refreshed, Game};
use crate::narrative::NarrativeState;
use crate::text::{decimal, spec_decimal};
use crate::world::MapGrid;

verus! {

/// The newest save layout this library reads.
pub const SAVE_SCHEMA_VERSION: u32 = 8;

/// The persistent world: map, entities, quest state and the random generator.
#[derive(Clone, Debug)]
pub struct WorldSnapshot {
    pub map: MapGrid,
    pub entities: EntityArena,
    pub narrative: NarrativeState,
    pub rng_seed: u64,
}

/// A saved game: its layout version, the world and the screens open at the time.
#[derive(Clone, Debug)]
pub struct SaveGameV1 {
    pub schema_version: u32,
    pub world: WorldSnapshot,
    pub modes: GameModeStack,
}

/// `v` cut or extended with `false` to exactly `n` entries.
pub open spec fn resized(v: Seq<bool>, n: int) -> Seq<bool> {
    if n <= v.len() {
        v.subrange(0, n)
    } else {
        v + Seq::new((n - v.len()) as nat, |i: int| false)
    }
}

/// The message refusing a save of layout `v`.
pub open spec fn version_error(v: u32) -> Seq<char> {
    "unsupported save version "@ + spec_decimal(v as nat) + " (max "@ + spec_decimal(SAVE_SCHEMA_VERSION as nat) + ")"@
}

/// `after` (and the result `r`) follows `before` once save `s` was taken up: a save of a
/// newer layout is refused with [`version_error`] and nothing changes; otherwise the
/// world and the open screens become the save's, flying projectiles, pending hits and area
/// effects are dropped, the spell cooldown is reset, the seen and explored masks are fitted
/// to the new map, and the player's view is refreshed (see [`fow_refreshed`]).
pub open spec fn save_applied<H: ContentRuntimeHooks>(before: &Game<H>, after: &Game<H>, s: SaveGameV1, r: Result<(), String>) -> bool {
    if s.schema_version > SAVE_SCHEMA_VERSION {
        r is Err && r->Err_0@ == version_error(s.schema_version) && *after == *before
    } else {
        let n = s.world.map.width as int * s.world.map.height as int;
        &&& r is Ok
        &&& exists|mid: Game<H>|
            #![trigger fow_refreshed(&mid, after)]
            {
                &&& mid == (Game {
                    map: s.world.map,
                    entities: s.world.entities,
                    narrative: s.world.narrative,
                    rng_seed: s.world.rng_seed,
                    modes: s.modes,
                    active_projectiles: mid.active_projectiles,
                    pending_hits: mid.pending_hits,
                    active_area_effects: mid.active_area_effects,
                    fireball_cooldown_ticks: 0,
                    explored: mid.explored,
                    visible: mid.visible,
                    ..*before
                })
                &&& mid.active_projectiles@.len() == 0
                &&& mid.pending_hits@.len() == 0
                &&& mid.active_area_effects@.len() == 0
                &&& mid.explored@ == resized(before.explored@, n)
                &&& mid.visible@ == resized(before.visible@, n)
                &&& fow_refreshed(&mid, after)
            }
    }
}

/// `b` holds the same map as `a`.
pub open spec fn same_map(a: MapGrid, b: MapGrid) -> bool {
    &&& b.width == a.width
    &&& b.height == a.height
    &&& b.tiles@ == a.tiles@
    &&& b.table.defs@ == a.table.defs@
}

/// `b` holds the same entities as `a`, slot for slot.
pub open spec fn same_entities(a: EntityArena, b: EntityArena) -> bool {
    &&& b.next_id == a.next_id
    &&& b.player == a.player
    &&& b.alive@ == a.alive@
    &&& b.position@ == a.position@
    &&& b.blocks_movement@ == a.blocks_movement@
    &&& b.glyph@ == a.glyph@
    &&& b.fg@ == a.fg@
    &&& b.name@ == a.name@
    &&& b.npc_kind@ == a.npc_kind@
    &&& b.item@ == a.item@
    &&& b.is_container@ == a.is_container@
    &&& b.combat_stats@ == a.combat_stats@
    &&& b.npc_brain@ == a.npc_brain@
}

/// Journal row `b` says the same as `a`.
pub open spec fn same_journal_row(a: JournalQuest, b: JournalQuest) -> bool {
    b.quest == a.quest && b.title == a.title && b.status == a.status && b.lines@ == a.lines@
}

/// Container inventory `b` holds the same as `a`.
pub open spec fn same_container(a: ContainerInventory, b: ContainerInventory) -> bool {
    b.container == a.container && b.inventory.stacks@ == a.inventory.stacks@
}

/// `b` holds the same quest state, inventory, journal and containers as `a`.
pub open spec fn same_narrative(a: NarrativeState, b: NarrativeState) -> bool {
    &&& b.inventory.stacks@ == a.inventory.stacks@
    &&& b.quests == a.quests
    &&& b.quest_stages@ == a.quest_stages@
    &&& b.quest_journal@.len() == a.quest_journal@.len()
    &&& forall|i: int| 0 <= i < a.quest_journal@.len() ==> #[trigger] same_journal_row(a.quest_journal@[i], b.quest_journal@[i])
    &&& b.container_inventories@.len() == a.container_inventories@.len()
    &&& forall|i: int| 0 <= i < a.container_inventories@.len() ==> #[trigger] same_container(a.container_inventories@[i], b.container_inventories@[i])
}

/// Screen `b` is screen `a` (an encounter with the same state).
pub open spec fn same_mode(a: GameMode, b: GameMode) -> bool {
    match a {
        GameMode::Combat(c) => b matches GameMode::Combat(d) && d@ == c@,
        _ => b == a,
    }
}

/// `b` holds the same screens as `a`, bottom to top.
pub open spec fn same_modes(a: GameModeStack, b: GameModeStack) -> bool {
    &&& b.stack@.len() == a.stack@.len()
    &&& forall|i: int| 0 <= i < a.stack@.len() ==> #[trigger] same_mode(a.stack@[i], b.stack@[i])
}

/// `w` records the world of `g`.
pub open spec fn world_recorded<H: ContentRuntimeHooks>(g: &Game<H>, w: WorldSnapshot) -> bool {
    &&& same_map(g.map, w.map)
    &&& same_entities(g.entities, w.entities)
    &&& same_narrative(g.narrative, w.narrative)
    &&& w.rng_seed == g.rng_seed
}

fn copy_vec<T: Copy>(v: &Vec<T>) -> (r: Vec<T>)
    ensures
        r@ == v@,
{
    let mut r: Vec<T> = Vec::new();
    let mut i: usize = 0;
    while i < v.len()
        invariant
            i <= v@.len(),
            r@ == v@.subrange(0, i as int),
        decreases v@.len() - i,
    {
        r.push(v[i]);
        i = i + 1;
    }
    assert(r@ =~= v@);
    r
}

fn copy_strings(v: &Vec<String>) -> (r: Vec<String>)
    ensures
        r@ == v@,
{
    let mut r: Vec<String> = Vec::new();
    let mut i: usize = 0;
    while i < v.len()
        invariant
            i <= v@.len(),
            r@ == v@.subrange(0, i as int),
        decreases v@.len() - i,
    {
        r.push(v[i].clone());
        i = i + 1;
    }
    assert(r@ =~= v@);
    r
}

fn copy_kinds(v: &Vec<Option<String>>) -> (r: Vec<Option<String>>)
    ensures
        r@ == v@,
{
    let mut r: Vec<Option<String>> = Vec::new();
    let mut i: usize = 0;
    while i < v.len()
        invariant
            i <= v@.len(),
            r@ == v@.subrange(0, i as int),
        decreases v@.len() - i,
    {
        let k = match &v[i] {
            Some(s) => Some(s.clone()),
            None => None,
        };
        r.push(k);
        i = i + 1;
    }
    assert(r@ =~= v@);
    r
}

fn copy_items(v: &Vec<Option<ItemStack>>) -> (r: Vec<Option<ItemStack>>)
    ensures
        r@ == v@,
{
    let mut r: Vec<Option<ItemStack>> = Vec::new();
    let mut i: usize = 0;
    while i < v.len()
        invariant
            i <= v@.len(),
            r@ == v@.subrange(0, i as int),
        decreases v@.len() - i,
    {
        let k = match &v[i] {
            Some(s) => Some(s.clone()),
            None => None,
        };
        r.push(k);
        i = i + 1;
    }
    assert(r@ =~= v@);
    r
}

fn copy_stacks(v: &Vec<ItemStack>) -> (r: Vec<ItemStack>)
    ensures
        r@ == v@,
{
    let mut r: Vec<ItemStack> = Vec::new();
    let mut i: usize = 0;
    while i < v.len()
        invariant
            i <= v@.len(),
            r@ == v@.subrange(0, i as int),
        decreases v@.len() - i,
    {
        r.push(v[i].clone());
        i = i + 1;
    }
    assert(r@ =~= v@);
    r
}

fn copy_stages(v: &Vec<QuestStage>) -> (r: Vec<QuestStage>)
    ensures
        r@ == v@,
{
    let mut r: Vec<QuestStage> = Vec::new();
    let mut i: usize = 0;
    while i < v.len()
        invariant
            i <= v@.len(),
            r@ == v@.subrange(0, i as int),
        decreases v@.len() - i,
    {
        r.push(QuestStage { quest: v[i].quest.clone(), stage: v[i].stage });
        i = i + 1;
    }
    assert(r@ =~= v@);
    r
}

fn copy_journal(v: &Vec<JournalQuest>) -> (r: Vec<JournalQuest>)
    ensures
        r@.len() == v@.len(),
        forall|i: int| 0 <= i < v@.len() ==> #[trigger] same_journal_row(v@[i], r@[i]),
{
    let mut r: Vec<JournalQuest> = Vec::new();
    let mut i: usize = 0;
    while i < v.len()
        invariant
            i <= v@.len(),
            r@.len() == i,
            forall|j: int| 0 <= j < i ==> #[trigger] same_journal_row(v@[j], r@[j]),
        decreases v@.len() - i,
    {
        r.push(
            JournalQuest {
                quest: v[i].quest.clone(),
                title: v[i].title.clone(),
                status: v[i].status,
                lines: copy_strings(&v[i].lines),
            },
        );
        i = i + 1;
    }
    r
}

fn copy_containers(v: &Vec<ContainerInventory>) -> (r: Vec<ContainerInventory>)
    ensures
        r@.len() == v@.len(),
        forall|i: int| 0 <= i < v@.len() ==> #[trigger] same_container(v@[i], r@[i]),
{
    let mut r: Vec<ContainerInventory> = Vec::new();
    let mut i: usize = 0;
    while i < v.len()
        invariant
            i <= v@.len(),
            r@.len() == i,
            forall|j: int| 0 <= j < i ==> #[trigger] same_container(v@[j], r@[j]),
        decreases v@.len() - i,
    {
        r.push(ContainerInventory { container: v[i].container, inventory: Inventory { stacks: copy_stacks(&v[i].inventory.stacks) } });
        i = i + 1;
    }
    r
}

fn copy_mode(m: &GameMode) -> (r: GameMode)
    ensures
        same_mode(*m, r),
{
    match m {
        GameMode::MainMenu { selected } => GameMode::MainMenu { selected: *selected },
        GameMode::Exploration => GameMode::Exploration,
        GameMode::Dialogue { npc_entity, dialogue_id, node_index, choice_cursor } => GameMode::Dialogue {
            npc_entity: *npc_entity,
            dialogue_id: dialogue_id.clone(),
            node_index: *node_index,
            choice_cursor: *choice_cursor,
        },
        GameMode::Inventory { cursor } => GameMode::Inventory { cursor: *cursor },
        GameMode::Journal { quest_cursor } => GameMode::Journal { quest_cursor: *quest_cursor },
        GameMode::ItemTransfer { container, focus, cursor_player, cursor_container } => GameMode::ItemTransfer {
            container: *container,
            focus: *focus,
            cursor_player: *cursor_player,
            cursor_container: *cursor_container,
        },
        GameMode::Combat(c) => GameMode::Combat(c.duplicate()),
        GameMode::SpellTargeting { spell, cursor } => GameMode::SpellTargeting { spell: *spell, cursor: *cursor },
        GameMode::GameOver => GameMode::GameOver,
    }
}

fn copy_modes(m: &GameModeStack) -> (r: GameModeStack)
    ensures
        same_modes(*m, r),
{
    let mut out: Vec<GameMode> = Vec::new();
    let mut i: usize = 0;
    while i < m.stack.len()
        invariant
            i <= m.stack@.len(),
            out@.len() == i,
            forall|j: int| 0 <= j < i ==> #[trigger] same_mode(m.stack@[j], out@[j]),
        decreases m.stack@.len() - i,
    {
        out.push(copy_mode(&m.stack[i]));
        i = i + 1;
    }
    GameModeStack { stack: out }
}

fn resize_mask(v: &mut Vec<bool>, n: usize)
    ensures
        final(v)@ == resized(old(v)@, n as int),
{
    let ghost v0 = v@;
    v.resize(n, false);
    assert(v@ =~= resized(v0, n as int));
}

impl<H: ContentRuntimeHooks> Game<H> {
    /// A record of the world (see [`world_recorded`]).
    pub fn snapshot(&self) -> (w: WorldSnapshot)
        ensures
            world_recorded(self, w),
    {
        let e = &self.entities;
        let n = &self.narrative;
        WorldSnapshot {
            map: MapGrid {
                width: self.map.width,
                height: self.map.height,
                tiles: copy_vec(&self.map.tiles),
                table: TileTable { defs: copy_vec(&self.map.table.defs) },
            },
            entities: EntityArena {
                next_id: e.next_id,
                alive: copy_vec(&e.alive),
                position: copy_vec(&e.position),
                blocks_movement: copy_vec(&e.blocks_movement),
                glyph: copy_vec(&e.glyph),
                fg: copy_vec(&e.fg),
                name: copy_strings(&e.name),
                npc_kind: copy_kinds(&e.npc_kind),
                item: copy_items(&e.item),
                is_container: copy_vec(&e.is_container),
                combat_stats: copy_vec(&e.combat_stats),
                npc_brain: copy_vec(&e.npc_brain),
                player: e.player,
            },
            narrative: NarrativeState {
                inventory: Inventory { stacks: copy_stacks(&n.inventory.stacks) },
                quests: n.quests,
                quest_stages: copy_stages(&n.quest_stages),
                quest_journal: copy_journal(&n.quest_journal),
                container_inventories: copy_containers(&n.container_inventories),
            },
            rng_seed: self.rng_seed,
        }
    }

    /// A save of the game: the current layout version, the world (see
    /// [`world_recorded`]) and the open screens.
    pub fn save_game(&self) -> (s: SaveGameV1)
        ensures
            s.schema_version == SAVE_SCHEMA_VERSION,
            world_recorded(self, s.world),
            same_modes(self.modes, s.modes),
    {
        SaveGameV1 { schema_version: SAVE_SCHEMA_VERSION, world: self.snapshot(), modes: copy_modes(&self.modes) }
    }

    /// Takes up save `s` (see [`save_applied`]). The save's world must be well formed, as
    /// every world this library keeps is.
    pub fn apply_save(&mut self, s: SaveGameV1) -> (r: Result<(), String>)
        requires
            old(self).wf(),
            s.world.entities.wf(),
            s.world.map.wf(),
            speeds_bounded(&s.world.entities),
        ensures
            final(self).wf(),
            save_applied(old(self), final(self), s, r),
    {
        if s.schema_version > SAVE_SCHEMA_VERSION {
            let m = String::from_str("unsupported save version ").concat(decimal(s.schema_version as u64).as_str()).concat(
                " (max ",
            ).concat(decimal(SAVE_SCHEMA_VERSION as u64).as_str()).concat(")");
            return Err(m);
        }
        let ghost s0 = s;
        let n: usize = s.world.map.tiles.len();
        self.map = s.world.map;
        self.entities = s.world.entities;
        self.narrative = s.world.narrative;
        self.rng_seed = s.world.rng_seed;
        self.modes = s.modes;
        self.active_projectiles.clear();
        self.pending_hits.clear();
        self.active_area_effects.clear();
        self.fireball_cooldown_ticks = 0;
        resize_mask(&mut self.explored, n);
        resize_mask(&mut self.visible, n);
        let ghost mid = *self;
        self.refresh_fow();
        assert(fow_refreshed(&mid, &*self));
        Ok(())
    }
}

} // verus!
