//! Level files: terrain, props, spawns and atmosphere zones, and their check against the
//! content pack.

use vstd::prelude::*;

use crate::content::ContentPack;
use crate::entity::GridPos;
use crate::search::{first_match, first_msg, lemma_first_match_is, lemma_first_match_none, or_else};
use crate::text::{decimal, signed_decimal, spec_decimal, spec_signed_decimal};
use crate::world::{MapGrid, EMPTY_PROP_ID};

verus! {

/// Largest allowed edge falloff of an atmosphere zone.
pub const MAX_ZONE_FALLOFF: u16 = 64;

/// Terrain definition stored in a level.
#[derive(Clone, Copy, Debug)]
pub struct LevelTileDef {
    pub id: u16,
    pub name: &'static str,
    pub glyph: char,
    pub blocks_movement: bool,
    pub blocks_sight: bool,
}

/// An entity placed by the level.
#[derive(Clone, Debug)]
pub struct EntitySpawn {
    /// Blueprint kind.
    pub kind: String,
    pub x: i32,
    pub y: i32,
    pub glyph: char,
    pub name: String,
}

#[derive(Clone, Copy, Debug, PartialEq, Eq, Structural)]
pub enum AtmosphereShape {
    Rectangle { width_tiles: u16, height_tiles: u16 },
    Circle { radius_tiles: u16 },
}

/// A tinted region of the map.
#[derive(Clone, Copy, Debug, PartialEq, Eq, Structural)]
pub struct AtmosphereZone {
    pub anchor_x: i32,
    pub anchor_y: i32,
    pub shape: AtmosphereShape,
    pub edge_falloff_tiles: u16,
}

#[derive(Clone, Debug)]
pub struct LevelFile {
    pub name: String,
    pub width: u16,
    pub height: u16,
    /// Ground tile per cell, row-major.
    pub tiles: Vec<u16>,
    /// Prop tile per cell ([`EMPTY_PROP_ID`] for none), or empty for no prop layer.
    pub props: Vec<u16>,
    pub tile_defs: Vec<LevelTileDef>,
    pub spawns: Vec<EntitySpawn>,
    pub player_spawn: Option<GridPos>,
    pub atmosphere_zones: Vec<AtmosphereZone>,
}

impl LevelFile {
    /// A level holding `map`'s terrain and definitions, with `spawns` and nothing else.
    pub fn from_map(map: &MapGrid, name: &str, spawns: Vec<EntitySpawn>) -> (l: LevelFile)
        ensures
            l.name@ == name@,
            l.width == map.width,
            l.height == map.height,
            l.tiles@ == map.tiles@,
            l.props@.len() == 0,
            l.tile_defs@.len() == map.table.defs@.len(),
            forall|k: int|
                0 <= k < l.tile_defs@.len() ==> (#[trigger] l.tile_defs@[k]).id == map.table.defs@[k].idx
                    && l.tile_defs@[k].blocks_movement == map.table.defs@[k].blocks_movement,
            l.spawns@ == spawns@,
            l.player_spawn is None,
            l.atmosphere_zones@.len() == 0,
    {
        let mut tiles: Vec<u16> = Vec::new();
        let mut i: usize = 0;
        while i < map.tiles.len()
            invariant
                i <= map.tiles@.len(),
                tiles@ == map.tiles@.take(i as int),
            decreases map.tiles@.len() - i,
        {
            tiles.push(map.tiles[i]);
            assert(tiles@ =~= map.tiles@.take(i + 1));
            i = i + 1;
        }
        assert(tiles@ =~= map.tiles@);
        let mut defs: Vec<LevelTileDef> = Vec::new();
        let mut k: usize = 0;
        while k < map.table.defs.len()
            invariant
                k <= map.table.defs@.len(),
                defs@.len() == k,
                forall|j: int|
                    0 <= j < k ==> (#[trigger] defs@[j]).id == map.table.defs@[j].idx
                        && defs@[j].blocks_movement == map.table.defs@[j].blocks_movement,
            decreases map.table.defs@.len() - k,
        {
            let d = &map.table.defs[k];
            defs.push(
                LevelTileDef {
                    id: d.idx,
                    name: d.name,
                    glyph: d.glyph,
                    blocks_movement: d.blocks_movement,
                    blocks_sight: d.blocks_sight,
                },
            );
            k = k + 1;
        }
        LevelFile {
            name: String::from_str(name),
            width: map.width,
            height: map.height,
            tiles,
            props: Vec::new(),
            tile_defs: defs,
            spawns,
            player_spawn: None,
            atmosphere_zones: Vec::new(),
        }
    }
}

/// Index of the first tile definition with id `id`.
pub open spec fn first_def_with_id(defs: Seq<LevelTileDef>, id: u16) -> Option<int> {
    crate::search::first_match(defs.len() as int, |j: int| defs[j].id == id)
}

/// The first definition with id `id` blocks movement (false without one).
pub open spec fn def_blocks(defs: Seq<LevelTileDef>, id: u16) -> bool {
    match first_def_with_id(defs, id) {
        Some(j) => defs[j].blocks_movement,
        None => false,
    }
}

/// The player spawn is on the map, its cell has a ground tile, and neither the ground
/// nor the prop there blocks movement.
pub open spec fn player_spawn_ok(level: &LevelFile, p: GridPos) -> bool {
    let idx = p.y * level.width + p.x;
    &&& 0 <= p.x < level.width
    &&& 0 <= p.y < level.height
    &&& idx < level.tiles@.len()
    &&& !def_blocks(level.tile_defs@, level.tiles@[idx])
    &&& !(idx < level.props@.len() && level.props@[idx] != EMPTY_PROP_ID && def_blocks(
        level.tile_defs@,
        level.props@[idx],
    ))
}

/// The zone has a falloff within bounds, a non-degenerate shape, and an anchor within one
/// map size of the map.
pub open spec fn zone_ok(level: &LevelFile, z: AtmosphereZone) -> bool {
    let w = level.width as int;
    let h = level.height as int;
    &&& z.edge_falloff_tiles <= MAX_ZONE_FALLOFF
    &&& match z.shape {
        AtmosphereShape::Rectangle { width_tiles, height_tiles } => width_tiles != 0 && height_tiles != 0,
        AtmosphereShape::Circle { radius_tiles } => radius_tiles != 0,
    }
    &&& -w <= z.anchor_x < 2 * w
    &&& -h <= z.anchor_y < 2 * h
}

impl ContentPack {
    /// Every rule a level must keep to be loaded with this pack.
    pub open spec fn spec_level_valid(&self, level: &LevelFile) -> bool {
        let n_defs = level.tile_defs@.len();
        &&& forall|i: int| 0 <= i < level.tiles@.len() ==> (#[trigger] level.tiles@[i]) < n_defs
        &&& level.props@.len() == 0 || level.props@.len() == level.width * level.height
        &&& forall|i: int|
            0 <= i < level.props@.len() ==> #[trigger] level.props@[i] == EMPTY_PROP_ID || level.props@[i] < n_defs
        &&& forall|i: int| 0 <= i < level.spawns@.len() ==> self.spec_blueprint((#[trigger] level.spawns@[i]).kind@) is Some
        &&& level.player_spawn matches Some(p) ==> player_spawn_ok(level, p)
        &&& n_defs > 0
        &&& forall|i: int| 0 <= i < level.atmosphere_zones@.len() ==> zone_ok(level, #[trigger] level.atmosphere_zones@[i])
    }
}

/// Message for a tile layer (`prefix` is `"tiles["` or `"props["`) holding unknown id
/// `tid` at `i`.
pub open spec fn unknown_tile_msg(prefix: Seq<char>, i: int, tid: u16, n_defs: int) -> Seq<char> {
    prefix + spec_decimal(i as nat) + "] references unknown tile id "@ + spec_decimal(tid as nat) + " (only "@
        + spec_decimal(n_defs as nat) + " tile_defs)"@
}

/// Ground tile `j` has an unknown id.
pub open spec fn tiles_bad(level: &LevelFile) -> spec_fn(int) -> bool {
    |j: int| level.tiles@[j] >= level.tile_defs@.len()
}

/// The first unknown ground tile, as a message.
pub open spec fn tiles_error(level: &LevelFile) -> Option<Seq<char>> {
    let n_defs = level.tile_defs@.len() as int;
    first_msg(
        level.tiles@.len() as int,
        tiles_bad(level),
        |j: int| unknown_tile_msg("tiles["@, j, level.tiles@[j], n_defs),
    )
}

/// A prop layer of the wrong length, as a message.
pub open spec fn props_len_error(level: &LevelFile) -> Option<Seq<char>> {
    let expected = level.width as int * level.height as int;
    if level.props@.len() != 0 && level.props@.len() != expected {
        Some("props len "@ + spec_decimal(level.props@.len()) + " != width*height "@ + spec_decimal(expected as nat))
    } else {
        None
    }
}

/// Prop tile `j` has an unknown id.
pub open spec fn props_bad(level: &LevelFile) -> spec_fn(int) -> bool {
    |j: int| level.props@[j] != EMPTY_PROP_ID && level.props@[j] >= level.tile_defs@.len()
}

/// The first unknown prop tile, as a message.
pub open spec fn props_error(level: &LevelFile) -> Option<Seq<char>> {
    let n_defs = level.tile_defs@.len() as int;
    first_msg(
        level.props@.len() as int,
        props_bad(level),
        |j: int| unknown_tile_msg("props["@, j, level.props@[j], n_defs),
    )
}

/// Spawn `j` is of an unknown kind.
pub open spec fn spawns_bad(pack: &ContentPack, level: &LevelFile) -> spec_fn(int) -> bool {
    |j: int| pack.spec_blueprint(level.spawns@[j].kind@) is None
}

/// The first spawn of an unknown kind, as a message.
pub open spec fn spawns_error(pack: &ContentPack, level: &LevelFile) -> Option<Seq<char>> {
    first_msg(
        level.spawns@.len() as int,
        spawns_bad(pack, level),
        |j: int| "spawns["@ + spec_decimal(j as nat) + "].kind \""@ + level.spawns@[j].kind@
            + "\" is not a known entity blueprint"@,
    )
}

/// A player spawn off the map or on a blocking cell, as a message.
pub open spec fn player_spawn_error(level: &LevelFile) -> Option<Seq<char>> {
    match level.player_spawn {
        None => None,
        Some(p) => {
            let at = "player_spawn ("@ + spec_signed_decimal(p.x as int) + ","@ + spec_signed_decimal(p.y as int) + ")"@;
            let idx = p.y * level.width + p.x;
            if p.x < 0 || p.y < 0 || p.x >= level.width || p.y >= level.height {
                Some(at + " is outside map bounds "@ + spec_decimal(level.width as nat) + "×"@ + spec_decimal(
                    level.height as nat,
                ))
            } else if idx >= level.tiles@.len() {
                Some("player_spawn tile index "@ + spec_decimal(idx as nat) + " out of range"@)
            } else {
                let g = level.tiles@[idx];
                let pt = if idx < level.props@.len() { level.props@[idx] } else { EMPTY_PROP_ID };
                if def_blocks(level.tile_defs@, g) || (pt != EMPTY_PROP_ID && def_blocks(level.tile_defs@, pt)) {
                    Some(at + " is on a blocking tile (ground "@ + spec_decimal(g as nat) + " prop "@ + spec_decimal(
                        pt as nat,
                    ) + ")"@)
                } else {
                    None
                }
            }
        },
    }
}

/// The first broken rule of atmosphere zone `z` (number `i`), as a message.
pub open spec fn zone_error(level: &LevelFile, i: int, z: AtmosphereZone) -> Option<Seq<char>> {
    let label = "atmosphere_zones["@ + spec_decimal(i as nat) + "]"@;
    let w = level.width as int;
    let h = level.height as int;
    if z.edge_falloff_tiles > MAX_ZONE_FALLOFF {
        Some(label + ".edge_falloff_tiles "@ + spec_decimal(z.edge_falloff_tiles as nat) + " exceeds max "@
            + spec_decimal(MAX_ZONE_FALLOFF as nat))
    } else if (match z.shape {
        AtmosphereShape::Rectangle { width_tiles, height_tiles } => width_tiles == 0 || height_tiles == 0,
        AtmosphereShape::Circle { .. } => false,
    }) {
        Some(label + " rectangle has zero width or height"@)
    } else if (match z.shape {
        AtmosphereShape::Circle { radius_tiles } => radius_tiles == 0,
        AtmosphereShape::Rectangle { .. } => false,
    }) {
        Some(label + " circle has zero radius"@)
    } else if z.anchor_x < -w || z.anchor_x >= 2 * w || z.anchor_y < -h || z.anchor_y >= 2 * h {
        Some(label + " anchor ("@ + spec_signed_decimal(z.anchor_x as int) + ","@ + spec_signed_decimal(
            z.anchor_y as int,
        ) + ") is unreasonably far from map"@)
    } else {
        None
    }
}

/// Zone `j` breaks a rule.
pub open spec fn zones_bad(level: &LevelFile) -> spec_fn(int) -> bool {
    |j: int| zone_error(level, j, level.atmosphere_zones@[j]) is Some
}

/// The first zone that breaks a rule, as a message.
pub open spec fn zones_error(level: &LevelFile) -> Option<Seq<char>> {
    match first_match(level.atmosphere_zones@.len() as int, zones_bad(level)) {
        Some(i) => zone_error(level, i, level.atmosphere_zones@[i]),
        None => None,
    }
}

impl ContentPack {
    /// The message for the first rule `level` breaks, checked in order: ground tiles, the
    /// prop layer's length, prop tiles, spawn kinds, the player spawn, tile definitions,
    /// atmosphere zones.
    pub open spec fn spec_level_error(&self, level: &LevelFile) -> Option<Seq<char>> {
        or_else(
            tiles_error(level),
            or_else(
                props_len_error(level),
                or_else(
                    props_error(level),
                    or_else(
                        spawns_error(self, level),
                        or_else(
                            player_spawn_error(level),
                            or_else(
                                if level.tile_defs@.len() == 0 {
                                    Some(
                                        "tile_defs is empty — load terrain pack (materialize_tile_defs_from_pack) before validate_level"@,
                                    )
                                } else {
                                    None
                                },
                                zones_error(level),
                            ),
                        ),
                    ),
                ),
            ),
        )
    }
}

fn owned(s: &str) -> (r: String)
    ensures
        r@ == s@,
{
    String::from_str(s)
}

fn num(n: u64) -> (r: String)
    ensures
        r@ == spec_decimal(n as nat),
{
    decimal(n)
}

fn def_blocks_exec(defs: &Vec<LevelTileDef>, id: u16) -> (b: bool)
    ensures
        b == def_blocks(defs@, id),
{
    let ghost p = |j: int| defs@[j].id == id;
    let mut i: usize = 0;
    while i < defs.len()
        invariant
            i <= defs@.len(),
            p == (|j: int| defs@[j].id == id),
            forall|j: int| 0 <= j < i ==> !#[trigger] p(j),
        decreases defs@.len() - i,
    {
        if defs[i].id == id {
            proof { crate::search::lemma_first_match_is(defs@.len() as int, p, i as int); }
            return defs[i].blocks_movement;
        }
        i = i + 1;
    }
    proof { crate::search::lemma_first_match_none(defs@.len() as int, p); }
    false
}

impl ContentPack {
    /// Checks that `level` references only known tiles and blueprint kinds, places the
    /// player on a free cell and has sane atmosphere zones. `Ok` exactly when every rule
    /// holds; otherwise a message naming the first broken rule.
    pub fn validate_level(&self, level: &LevelFile) -> (r: Result<(), String>)
        ensures
            r is Ok <==> self.spec_level_valid(level),
            r matches Err(m) ==> self.spec_level_error(level) == Some(m@),
    {
        let n_defs = level.tile_defs.len();
        assert(level.width as u64 * level.height as u64 <= 0xffff_ffff) by (nonlinear_arith)
            requires level.width <= 0xffff, level.height <= 0xffff;
        let expected: u64 = level.width as u64 * level.height as u64;
        let mut i: usize = 0;
        while i < level.tiles.len()
            invariant
                i <= level.tiles@.len(),
                n_defs == level.tile_defs@.len(),
                forall|j: int| 0 <= j < i ==> (#[trigger] level.tiles@[j]) < n_defs,
            decreases level.tiles@.len() - i,
        {
            let tid = level.tiles[i];
            if tid as usize >= n_defs {
                proof { lemma_first_match_is(level.tiles@.len() as int, tiles_bad(level), i as int); }
                return Err(owned("tiles[").concat(num(i as u64).as_str()).concat("] references unknown tile id ").concat(
                    num(tid as u64).as_str(),
                ).concat(" (only ").concat(num(n_defs as u64).as_str()).concat(" tile_defs)"));
            }
            i = i + 1;
        }
        proof { lemma_first_match_none(level.tiles@.len() as int, tiles_bad(level)); }
        if level.props.len() != 0 && level.props.len() as u64 != expected {
            return Err(owned("props len ").concat(num(level.props.len() as u64).as_str()).concat(
                " != width*height ",
            ).concat(num(expected).as_str()));
        }
        let mut i: usize = 0;
        while i < level.props.len()
            invariant
                i <= level.props@.len(),
                n_defs == level.tile_defs@.len(),
                forall|j: int| 0 <= j < i ==> #[trigger] level.props@[j] == EMPTY_PROP_ID || level.props@[j] < n_defs,
                tiles_error(level) is None,
                props_len_error(level) is None,
            decreases level.props@.len() - i,
        {
            let tid = level.props[i];
            if tid != EMPTY_PROP_ID && tid as usize >= n_defs {
                proof { lemma_first_match_is(level.props@.len() as int, props_bad(level), i as int); }
                return Err(owned("props[").concat(num(i as u64).as_str()).concat("] references unknown tile id ").concat(
                    num(tid as u64).as_str(),
                ).concat(" (only ").concat(num(n_defs as u64).as_str()).concat(" tile_defs)"));
            }
            i = i + 1;
        }
        proof { lemma_first_match_none(level.props@.len() as int, props_bad(level)); }
        let mut i: usize = 0;
        while i < level.spawns.len()
            invariant
                i <= level.spawns@.len(),
                forall|j: int| 0 <= j < i ==> self.spec_blueprint((#[trigger] level.spawns@[j]).kind@) is Some,
                tiles_error(level) is None,
                props_len_error(level) is None,
                props_error(level) is None,
            decreases level.spawns@.len() - i,
        {
            let s = &level.spawns[i];
            if self.blueprint(s.kind.as_str()).is_none() {
                proof { lemma_first_match_is(level.spawns@.len() as int, spawns_bad(self, level), i as int); }
                return Err(owned("spawns[").concat(num(i as u64).as_str()).concat("].kind \"").concat(s.kind.as_str()).concat(
                    "\" is not a known entity blueprint",
                ));
            }
            i = i + 1;
        }
        proof { lemma_first_match_none(level.spawns@.len() as int, spawns_bad(self, level)); }
        if let Some(p) = level.player_spawn {
            let at = owned("player_spawn (").concat(signed_decimal(p.x as i64).as_str()).concat(",").concat(
                signed_decimal(p.y as i64).as_str(),
            ).concat(")");
            if p.x < 0 || p.y < 0 || p.x >= level.width as i32 || p.y >= level.height as i32 {
                return Err(at.concat(" is outside map bounds ").concat(num(level.width as u64).as_str()).concat("×").concat(
                    num(level.height as u64).as_str(),
                ));
            }
            assert(p.y as u64 * level.width as u64 <= 0xffff_ffff) by (nonlinear_arith)
                requires 0 <= p.y < 0xffff, level.width <= 0xffff;
            let idx: u64 = p.y as u64 * level.width as u64 + p.x as u64;
            if idx >= level.tiles.len() as u64 {
                return Err(owned("player_spawn tile index ").concat(num(idx).as_str()).concat(" out of range"));
            }
            let g_tid = level.tiles[idx as usize];
            let p_tid = if idx < level.props.len() as u64 { level.props[idx as usize] } else { EMPTY_PROP_ID };
            let g_blocks = def_blocks_exec(&level.tile_defs, g_tid);
            let p_blocks = p_tid != EMPTY_PROP_ID && def_blocks_exec(&level.tile_defs, p_tid);
            if g_blocks || p_blocks {
                return Err(at.concat(" is on a blocking tile (ground ").concat(num(g_tid as u64).as_str()).concat(
                    " prop ",
                ).concat(num(p_tid as u64).as_str()).concat(")"));
            }
        }
        if level.tile_defs.len() == 0 {
            return Err(
                owned(
                    "tile_defs is empty — load terrain pack (materialize_tile_defs_from_pack) before validate_level",
                ),
            );
        }
        let w: i32 = level.width as i32;
        let h: i32 = level.height as i32;
        let mut i: usize = 0;
        while i < level.atmosphere_zones.len()
            invariant
                i <= level.atmosphere_zones@.len(),
                w == level.width,
                h == level.height,
                forall|j: int| 0 <= j < i ==> zone_ok(level, #[trigger] level.atmosphere_zones@[j]),
                forall|j: int| 0 <= j < i ==> !#[trigger] zones_bad(level)(j),
                self.spec_level_error(level) == zones_error(level),
            decreases level.atmosphere_zones@.len() - i,
        {
            let z = level.atmosphere_zones[i];
            let label = owned("atmosphere_zones[").concat(num(i as u64).as_str()).concat("]");
            let ghost zi = i as int;
            proof {
                if zones_bad(level)(zi) {
                    lemma_first_match_is(level.atmosphere_zones@.len() as int, zones_bad(level), zi);
                }
            }
            if z.edge_falloff_tiles > MAX_ZONE_FALLOFF {
                return Err(label.concat(".edge_falloff_tiles ").concat(num(z.edge_falloff_tiles as u64).as_str()).concat(
                    " exceeds max ",
                ).concat(num(MAX_ZONE_FALLOFF as u64).as_str()));
            }
            match z.shape {
                AtmosphereShape::Rectangle { width_tiles, height_tiles } => {
                    if width_tiles == 0 || height_tiles == 0 {
                        return Err(label.concat(" rectangle has zero width or height"));
                    }
                },
                AtmosphereShape::Circle { radius_tiles } => {
                    if radius_tiles == 0 {
                        return Err(label.concat(" circle has zero radius"));
                    }
                },
            }
            if z.anchor_x < -w || z.anchor_x >= w * 2 || z.anchor_y < -h || z.anchor_y >= h * 2 {
                return Err(label.concat(" anchor (").concat(signed_decimal(z.anchor_x as i64).as_str()).concat(",").concat(
                    signed_decimal(z.anchor_y as i64).as_str(),
                ).concat(") is unreasonably far from map"));
            }
            assert(!zones_bad(level)(zi));
            i = i + 1;
        }
        proof { lemma_first_match_none(level.atmosphere_zones@.len() as int, zones_bad(level)); }
        Ok(())
    }
}

} // verus!
