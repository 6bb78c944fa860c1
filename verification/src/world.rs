//! The tile map: terrain table, passability, sight lines.

use vstd::prelude::*;

use crate::entity::GridPos;
use crate::math::{abs_int, max_int, spec_signum, spec_within_euclidean_radius, within_euclidean_radius};
use crate::search::{first_match, lemma_first_match_is, lemma_first_match_none};

verus! {

/// Static description of a terrain tile type.
#[derive(Clone, Copy, Debug)]
pub struct TileDef {
    /// Id stored in the map's cells.
    pub idx: u16,
    pub name: &'static str,
    pub glyph: char,
    /// Solid: blocks movement.
    pub blocks_movement: bool,
    /// Opaque: blocks line of sight and projectiles.
    pub blocks_sight: bool,
}

/// The terrain types a map may use.
#[derive(Clone, Debug)]
pub struct TileTable {
    pub defs: Vec<TileDef>,
}

/// Prop layer value meaning "no prop on this cell".
pub const EMPTY_PROP_ID: u16 = 65535;

/// Id of the open floor tile of [`TileTable::default_pack`].
pub const FLOOR_TILE: u16 = 0;
/// Id of the wall tile of [`TileTable::default_pack`].
pub const WALL_TILE: u16 = 1;
/// Id of the water tile of [`TileTable::default_pack`].
pub const WATER_TILE: u16 = 2;

impl TileTable {
    /// Position of the first definition with id `idx`.
    pub open spec fn spec_def_index(&self, idx: u16) -> Option<int> {
        first_match(self.defs@.len() as int, |j: int| self.defs@[j].idx == idx)
    }

    /// Built-in terrain: floor (open), wall (solid, opaque), water (solid, see-through).
    pub fn default_pack() -> (r: Result<TileTable, String>)
        ensures
            r matches Ok(t) && t.defs@.len() == 3 && t.defs@[0].idx == FLOOR_TILE
                && !t.defs@[0].blocks_movement && !t.defs@[0].blocks_sight && t.defs@[1].idx
                == WALL_TILE && t.defs@[1].blocks_movement && t.defs@[1].blocks_sight
                && t.defs@[2].idx == WATER_TILE && t.defs@[2].blocks_movement
                && !t.defs@[2].blocks_sight,
    {
        let mut defs: Vec<TileDef> = Vec::new();
        defs.push(TileDef { idx: FLOOR_TILE, name: "Floor", glyph: '.', blocks_movement: false, blocks_sight: false });
        defs.push(TileDef { idx: WALL_TILE, name: "Wall", glyph: '#', blocks_movement: true, blocks_sight: true });
        defs.push(TileDef { idx: WATER_TILE, name: "Water", glyph: '~', blocks_movement: true, blocks_sight: false });
        Ok(TileTable { defs })
    }

    /// The first definition with id `idx`.
    pub fn def(&self, idx: u16) -> (r: Option<TileDef>)
        ensures
            r matches Some(d) ==> self.spec_def_index(idx) matches Some(j) && d == self.defs@[j],
            r is None <==> self.spec_def_index(idx) is None,
    {
        let ghost p = |j: int| self.defs@[j].idx == idx;
        let mut i: usize = 0;
        while i < self.defs.len()
            invariant
                i <= self.defs@.len(),
                p == (|j: int| self.defs@[j].idx == idx),
                forall|j: int| 0 <= j < i ==> !#[trigger] p(j),
            decreases self.defs@.len() - i,
        {
            if self.defs[i].idx == idx {
                proof { lemma_first_match_is(self.defs@.len() as int, p, i as int); }
                return Some(self.defs[i]);
            }
            i = i + 1;
        }
        proof { lemma_first_match_none(self.defs@.len() as int, p); }
        None
    }
}

/// A rectangular grid of tile ids, row-major.
#[derive(Clone, Debug)]
pub struct MapGrid {
    pub width: u16,
    pub height: u16,
    pub tiles: Vec<u16>,
    pub table: TileTable,
}

impl MapGrid {
    /// One tile id per cell.
    pub open spec fn wf(&self) -> bool {
        self.tiles@.len() == self.width as int * self.height as int
    }

    pub open spec fn spec_in_bounds(&self, x: int, y: int) -> bool {
        0 <= x < self.width && 0 <= y < self.height
    }

    pub open spec fn cell_index(&self, x: int, y: int) -> int {
        y * self.width + x
    }

    /// Tile id at an in-bounds cell.
    pub open spec fn spec_tile(&self, x: int, y: int) -> u16 {
        self.tiles@[self.cell_index(x, y)]
    }

    /// Out-of-bounds cells and cells whose tile id has no definition block movement.
    pub open spec fn spec_blocks_movement(&self, x: int, y: int) -> bool {
        if !self.spec_in_bounds(x, y) {
            true
        } else {
            match self.table.spec_def_index(self.spec_tile(x, y)) {
                Some(j) => self.table.defs@[j].blocks_movement,
                None => true,
            }
        }
    }

    /// Out-of-bounds cells and cells whose tile id has no definition block sight.
    pub open spec fn spec_blocks_sight(&self, x: int, y: int) -> bool {
        if !self.spec_in_bounds(x, y) {
            true
        } else {
            match self.table.spec_def_index(self.spec_tile(x, y)) {
                Some(j) => self.table.defs@[j].blocks_sight,
                None => true,
            }
        }
    }

    pub proof fn lemma_cell_index(&self, x: int, y: int)
        requires
            self.wf(),
            self.spec_in_bounds(x, y),
        ensures
            0 <= self.cell_index(x, y) < self.tiles@.len(),
    {
        assert(y * self.width + x < self.width as int * self.height as int) by (nonlinear_arith)
            requires
                0 <= x < self.width,
                0 <= y < self.height,
        ;
        assert(0 <= y * self.width) by (nonlinear_arith)
            requires
                0 <= y,
                0 <= self.width,
        ;
    }

    /// A `w`×`h` map with every cell set to `tile`.
    pub fn filled(w: u16, h: u16, tile: u16, table: TileTable) -> (m: MapGrid)
        requires
            w as int * h as int <= usize::MAX,
        ensures
            m.wf(),
            m.width == w,
            m.height == h,
            m.table == table,
            forall|k: int| 0 <= k < m.tiles@.len() ==> m.tiles@[k] == tile,
    {
        let n: usize = (w as usize) * (h as usize);
        let mut tiles: Vec<u16> = Vec::new();
        while tiles.len() < n
            invariant
                tiles@.len() <= n,
                forall|k: int| 0 <= k < tiles@.len() ==> tiles@[k] == tile,
            decreases n - tiles@.len(),
        {
            tiles.push(tile);
        }
        MapGrid { width: w, height: h, tiles, table }
    }

    pub fn in_bounds(&self, x: i32, y: i32) -> (b: bool)
        ensures
            b == self.spec_in_bounds(x as int, y as int),
    {
        x >= 0 && y >= 0 && (x as i64) < (self.width as i64) && (y as i64) < (self.height as i64)
    }

    /// Tile id at `(x, y)`, or `None` off the map.
    pub fn tile_at(&self, x: i32, y: i32) -> (t: Option<u16>)
        requires
            self.wf(),
        ensures
            t == if self.spec_in_bounds(x as int, y as int) {
                Some(self.spec_tile(x as int, y as int))
            } else {
                None
            },
    {
        if !self.in_bounds(x, y) {
            return None;
        }
        let len = self.tiles.len();
        proof {
            self.lemma_cell_index(x as int, y as int);
            assert(0 <= (y as int) * (self.width as int)) by (nonlinear_arith)
                requires 0 <= y, 0 <= self.width;
        }
        let idx: usize = (y as usize) * (self.width as usize) + (x as usize);
        Some(self.tiles[idx])
    }

    /// Replaces the tile at an in-bounds cell.
    pub fn set_tile(&mut self, x: i32, y: i32, tile: u16)
        requires
            old(self).wf(),
        ensures
            final(self).wf(),
            final(self).width == old(self).width,
            final(self).height == old(self).height,
            final(self).table == old(self).table,
            final(self).tiles@ == if old(self).spec_in_bounds(x as int, y as int) {
                old(self).tiles@.update(old(self).cell_index(x as int, y as int), tile)
            } else {
                old(self).tiles@
            },
    {
        if !self.in_bounds(x, y) {
            return;
        }
        let len = self.tiles.len();
        proof {
            self.lemma_cell_index(x as int, y as int);
            assert(0 <= (y as int) * (self.width as int)) by (nonlinear_arith)
                requires 0 <= y, 0 <= self.width;
        }
        let idx: usize = (y as usize) * (self.width as usize) + (x as usize);
        self.tiles.set(idx, tile);
    }

    pub fn blocks_movement(&self, x: i32, y: i32) -> (b: bool)
        requires
            self.wf(),
        ensures
            b == self.spec_blocks_movement(x as int, y as int),
    {
        match self.tile_at(x, y) {
            None => true,
            Some(t) => match self.table.def(t) {
                Some(d) => d.blocks_movement,
                None => true,
            },
        }
    }

    pub fn blocks_sight(&self, x: i32, y: i32) -> (b: bool)
        requires
            self.wf(),
        ensures
            b == self.spec_blocks_sight(x as int, y as int),
    {
        match self.tile_at(x, y) {
            None => true,
            Some(t) => match self.table.def(t) {
                Some(d) => d.blocks_sight,
                None => true,
            },
        }
    }
}

/// Offset along one axis of the `k`-th of `n` steps of a line covering `d` cells on that
/// axis (rounded to the nearest cell, halves away from the start).
pub open spec fn line_offset(d: int, k: int, n: int) -> int {
    spec_signum(d) * ((2 * abs_int(d) * k + n) / (2 * n))
}

/// The `k`-th cell of the straight line from `a` to `b`, which takes
/// `n = chebyshev(a, b)` steps.
pub open spec fn line_cell(a: GridPos, b: GridPos, k: int) -> (int, int) {
    let n = max_int(abs_int(b.x - a.x), abs_int(b.y - a.y));
    (a.x + line_offset(b.x - a.x, k, n), a.y + line_offset(b.y - a.y, k, n))
}

/// No cell strictly between `a` and `b` on the line between them blocks sight.
pub open spec fn spec_sight_clear(map: &MapGrid, a: GridPos, b: GridPos) -> bool {
    let n = max_int(abs_int(b.x - a.x), abs_int(b.y - a.y));
    forall|k: int|
        0 < k < n ==> !#[trigger] map.spec_blocks_sight(line_cell(a, b, k).0, line_cell(a, b, k).1)
}

/// Computes `line_offset(d, k, n)` for `|d| <= n`, `0 < k < n`.
fn line_offset_exec(d: i64, k: u64, n: u64) -> (o: i64)
    requires
        0 < k < n,
        n <= 0x1_0000_0000,
        abs_int(d as int) <= n,
    ensures
        o == line_offset(d as int, k as int, n as int),
        abs_int(o as int) <= n,
{
    let ad: u128 = if d < 0 { (-(d as i128)) as u128 } else { d as u128 };
    assert(2 * ad * k <= 2 * 0x1_0000_0000 * 0x1_0000_0000) by (nonlinear_arith)
        requires ad <= 0x1_0000_0000, k <= 0x1_0000_0000;
    let num: u128 = 2 * ad * (k as u128) + (n as u128);
    let q: u128 = num / (2 * (n as u128));
    assert(q <= n) by (nonlinear_arith)
        requires q as int == num as int / (2 * n as int), num == 2 * ad * k + n, ad <= n, k < n, n > 0;
    if d > 0 {
        q as i64
    } else if d < 0 {
        -(q as i64)
    } else {
        0
    }
}

/// Whether a projectile flying from `a` to `b` passes only through see-through cells.
pub fn projectile_sight_clear(map: &MapGrid, a: GridPos, b: GridPos) -> (r: bool)
    requires
        map.wf(),
    ensures
        r == spec_sight_clear(map, a, b),
{
    let dx: i64 = b.x as i64 - a.x as i64;
    let dy: i64 = b.y as i64 - a.y as i64;
    let adx: i64 = if dx < 0 { -dx } else { dx };
    let ady: i64 = if dy < 0 { -dy } else { dy };
    let n: i64 = if adx >= ady { adx } else { ady };
    let mut k: i64 = 1;
    while k < n
        invariant
            1 <= k,
            n == max_int(abs_int(b.x - a.x), abs_int(b.y - a.y)),
            dx == b.x - a.x,
            dy == b.y - a.y,
            n <= 0x1_0000_0000,
            map.wf(),
            forall|j: int|
                0 < j < k && j < n ==> !#[trigger] map.spec_blocks_sight(
                    line_cell(a, b, j).0,
                    line_cell(a, b, j).1,
                ),
        decreases n - k,
    {
        let ox = line_offset_exec(dx, k as u64, n as u64);
        let oy = line_offset_exec(dy, k as u64, n as u64);
        let cx: i64 = a.x as i64 + ox;
        let cy: i64 = a.y as i64 + oy;
        assert(line_cell(a, b, k as int) == (cx as int, cy as int));
        let blocked = if cx < i32::MIN as i64 || cx > i32::MAX as i64 || cy < i32::MIN as i64
            || cy > i32::MAX as i64 {
            true
        } else {
            map.blocks_sight(cx as i32, cy as i32)
        };
        if blocked {
            assert(map.spec_blocks_sight(line_cell(a, b, k as int).0, line_cell(a, b, k as int).1));
            return false;
        }
        k = k + 1;
    }
    true
}


/// Cell `i` (row-major) of `map`.
pub open spec fn cell_of(map: &MapGrid, i: int) -> GridPos {
    GridPos { x: (i % map.width as int) as i32, y: (i / map.width as int) as i32 }
}

/// Cell `i` of `map` lies within Euclidean distance `r` of `p`, and no cell between them
/// blocks sight.
pub open spec fn cell_visible(map: &MapGrid, p: GridPos, r: int, i: int) -> bool {
    spec_within_euclidean_radius(p, cell_of(map, i), r) && spec_sight_clear(map, p, cell_of(map, i))
}

/// Sets each of the map's cells in `visible` to whether it is seen from `(px, py)` within
/// `radius`; entries past the map's cells keep their value.
pub fn compute_visible(map: &MapGrid, px: i32, py: i32, radius: i32, visible: &mut Vec<bool>)
    requires
        map.wf(),
    ensures
        final(visible)@.len() == old(visible)@.len(),
        forall|i: int|
            0 <= i < final(visible)@.len() ==> #[trigger] final(visible)@[i] == if i < map.tiles@.len() {
                cell_visible(map, GridPos { x: px, y: py }, radius as int, i)
            } else {
                old(visible)@[i]
            },
{
    let p = GridPos { x: px, y: py };
    let w = map.width as usize;
    let n = map.tiles.len();
    let mut i: usize = 0;
    while i < visible.len()
        invariant
            map.wf(),
            n == map.tiles@.len(),
            w == map.width,
            visible@.len() == old(visible)@.len(),
            forall|j: int|
                0 <= j < visible@.len() ==> #[trigger] visible@[j] == if j < i && j < n {
                    cell_visible(map, p, radius as int, j)
                } else {
                    old(visible)@[j]
                },
        decreases visible@.len() - i,
    {
        if i < n {
            assert(w > 0) by (nonlinear_arith)
                requires i < n, n == map.width as int * map.height as int, w == map.width;
            let x = (i % w) as i32;
            let y = (i / w) as i32;
            assert(i / w <= i) by (nonlinear_arith)
                requires w > 0;
            let c = GridPos { x, y };
            assert(c == cell_of(map, i as int));
            let seen = within_euclidean_radius(p, c, radius) && projectile_sight_clear(map, p, c);
            visible.set(i, seen);
        }
        i = i + 1;
    }
}

/// Adds the cells in `visible` to `explored` (over the entries both have).
pub fn merge_explored(visible: &Vec<bool>, explored: &mut Vec<bool>)
    ensures
        final(explored)@.len() == old(explored)@.len(),
        forall|i: int|
            0 <= i < final(explored)@.len() ==> #[trigger] final(explored)@[i] == (old(explored)@[i] || (i
                < visible@.len() && visible@[i])),
{
    let mut i: usize = 0;
    while i < explored.len()
        invariant
            explored@.len() == old(explored)@.len(),
            forall|j: int|
                0 <= j < explored@.len() ==> #[trigger] explored@[j] == if j < i {
                    old(explored)@[j] || (j < visible@.len() && visible@[j])
                } else {
                    old(explored)@[j]
                },
        decreases explored@.len() - i,
    {
        if i < visible.len() && visible[i] {
            explored.set(i, true);
        }
        i = i + 1;
    }
}

} // verus!
