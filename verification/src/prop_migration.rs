//! Moving wall and tree tiles of a level's ground layer into its prop layer, with the
//! ground under each moved tile inferred from its neighbours.

use vstd::prelude::*;

use crate::text::{decimal, spec_decimal};
use crate::world::EMPTY_PROP_ID;

verus! {

/// Tile ids (in terrain pack order) that stand on the ground rather than being ground:
/// wall, the four connector walls and tree.
pub open spec fn spec_prop_tile_ids() -> Seq<u16> {
    seq![1u16, 4, 5, 6, 7, 8]
}

pub fn prop_tile_ids() -> (ids: Vec<u16>)
    ensures
        ids@ == spec_prop_tile_ids(),
{
    let ids = vec![1u16, 4, 5, 6, 7, 8];
    assert(ids@ =~= spec_prop_tile_ids());
    ids
}

/// Column and row offset of the `k`-th neighbour, row by row from the top left, the
/// centre skipped.
pub open spec fn neighbour_offset(k: int) -> (int, int) {
    let j = if k < 4 { k } else { k + 1 };
    (j % 3 - 1, j / 3 - 1)
}

/// The ground tiles among the first `k` neighbours of cell `i` (row-major, `w` wide, `h`
/// high) of `orig`: those inside the grid whose tile is not a prop.
pub open spec fn seen_ground(i: int, orig: Seq<u16>, w: int, h: int, props: Seq<u16>, k: int) -> Seq<u16>
    decreases k,
{
    if k <= 0 {
        Seq::empty()
    } else {
        let prev = seen_ground(i, orig, w, h, props, k - 1);
        let (dx, dy) = neighbour_offset(k - 1);
        let nx = i % w + dx;
        let ny = i / w + dy;
        if 0 <= nx < w && 0 <= ny < h && !props.contains(orig[ny * w + nx]) {
            prev.push(orig[ny * w + nx])
        } else {
            prev
        }
    }
}

/// Ground inferred for cell `i`: grass, water or floor when a neighbour has it (in that
/// order of preference), else the first ground neighbour, else grass.
pub open spec fn spec_infer_ground(i: int, orig: Seq<u16>, w: int, h: int, props: Seq<u16>) -> u16 {
    let seen = seen_ground(i, orig, w, h, props, 8);
    if seen.contains(2) {
        2
    } else if seen.contains(3) {
        3
    } else if seen.contains(0) {
        0
    } else if seen.len() > 0 {
        seen[0]
    } else {
        2
    }
}

fn slice_contains(s: &[u16], t: u16) -> (b: bool)
    ensures
        b == s@.contains(t),
{
    let mut k: usize = 0;
    while k < s.len()
        invariant
            k <= s@.len(),
            forall|j: int| 0 <= j < k ==> s@[j] != t,
        decreases s@.len() - k,
    {
        if s[k] == t {
            return true;
        }
        k = k + 1;
    }
    false
}

/// Ground for cell `i` of a `w`-by-`h` grid `orig` whose tile is a prop (see
/// [`spec_infer_ground`]).
pub fn infer_ground(i: usize, orig: &[u16], w: usize, h: usize, prop_ids: &[u16]) -> (g: u16)
    requires
        0 < w <= i32::MAX,
        h <= i32::MAX,
        i < w * h,
        w * h <= orig@.len(),
    ensures
        g == spec_infer_ground(i as int, orig@, w as int, h as int, prop_ids@),
{
    proof {
        assert(i / w < h) by (nonlinear_arith)
            requires i < w * h, 0 < w;
    }
    let x = (i % w) as i64;
    let y = (i / w) as i64;
    let len = orig.len();
    let ghost wi = w as int;
    let ghost hi = h as int;
    let mut seen: Vec<u16> = Vec::new();
    let mut k: usize = 0;
    while k < 8
        invariant
            k <= 8,
            0 < w <= i32::MAX,
            h <= i32::MAX,
            w * h <= orig@.len(),
            len == orig@.len(),
            x == i as int % wi,
            y == i as int / wi,
            0 <= x < wi,
            0 <= y < hi,
            wi == w,
            hi == h,
            seen@ == seen_ground(i as int, orig@, wi, hi, prop_ids@, k as int),
        decreases 8 - k,
    {
        let j: i64 = if k < 4 { k as i64 } else { k as i64 + 1 };
        let dx: i64 = j % 3 - 1;
        let dy: i64 = j / 3 - 1;
        let nx = x + dx;
        let ny = y + dy;
        if nx >= 0 && ny >= 0 && nx < w as i64 && ny < h as i64 {
            proof {
                assert(ny * wi + nx < wi * hi) by (nonlinear_arith)
                    requires 0 <= ny < hi, 0 <= nx < wi;
                assert(0 <= ny * wi + nx) by (nonlinear_arith)
                    requires 0 <= ny, 0 <= nx, 0 < wi;
            }
            let ghost nyi = ny as int;
            let ghost nxi = nx as int;
            proof {
                assert((ny as usize) as int * wi + (nx as usize) as int == nyi * wi + nxi);
            }
            let ni = ny as usize * w + nx as usize;
            let t = orig[ni];
            if !slice_contains(prop_ids, t) {
                seen.push(t);
            }
        }
        k = k + 1;
    }
    let prefer: [u16; 3] = [2, 3, 0];
    let mut p: usize = 0;
    while p < 3
        invariant
            p <= 3,
            prefer@ == seq![2u16, 3, 0],
            seen@ == seen_ground(i as int, orig@, w as int, h as int, prop_ids@, 8),
            forall|q: int| 0 <= q < p ==> !seen@.contains(prefer@[q]),
        decreases 3 - p,
    {
        if slice_contains(seen.as_slice(), prefer[p]) {
            return prefer[p];
        }
        p = p + 1;
    }
    if seen.len() > 0 {
        seen[0]
    } else {
        2
    }
}

/// The level's grid after migration: at each cell holding a prop tile, the prop layer
/// takes the tile and the ground layer its inferred ground; elsewhere the ground stays and
/// the prop layer is empty.
pub open spec fn migrated(orig: Seq<u16>, w: int, h: int, ground: Seq<u16>, props: Seq<u16>) -> bool {
    &&& ground.len() == orig.len()
    &&& props.len() == orig.len()
    &&& forall|i: int| 0 <= i < orig.len() ==> {
        if spec_prop_tile_ids().contains(#[trigger] orig[i]) {
            props[i] == orig[i] && ground[i] == spec_infer_ground(i, orig, w, h, spec_prop_tile_ids())
        } else {
            props[i] == EMPTY_PROP_ID && ground[i] == orig[i]
        }
    }
}

/// Splits a `width`-by-`height` ground layer into ground and props (see [`migrated`]);
/// a layer of the wrong length is refused with `"tiles len <len> != <width × height>"`.
pub fn migrate_level_props(tiles: &Vec<u16>, width: u16, height: u16) -> (r: Result<(Vec<u16>, Vec<u16>), String>)
    ensures
        match r {
            Ok((ground, props)) => tiles@.len() == width * height && migrated(
                tiles@,
                width as int,
                height as int,
                ground@,
                props@,
            ),
            Err(e) => tiles@.len() != width * height && e@ == "tiles len "@ + spec_decimal(tiles@.len()) + " != "@
                + spec_decimal((width * height) as nat),
        },
{
    let w = width as usize;
    let h = height as usize;
    proof {
        assert(w * h <= 65535 * 65535) by (nonlinear_arith)
            requires w <= 65535, h <= 65535;
    }
    let n = w * h;
    if tiles.len() != n {
        return Err(String::from_str("tiles len ").concat(decimal(tiles.len() as u64).as_str()).concat(" != ").concat(
            decimal(n as u64).as_str(),
        ));
    }
    let ids = prop_tile_ids();
    let mut ground: Vec<u16> = Vec::new();
    let mut props: Vec<u16> = Vec::new();
    let mut i: usize = 0;
    while i < n
        invariant
            n == w * h,
            n == tiles@.len(),
            w == width,
            h == height,
            i <= n,
            ids@ == spec_prop_tile_ids(),
            ground@.len() == i,
            props@.len() == i,
            forall|j: int| 0 <= j < i ==> {
                if spec_prop_tile_ids().contains(#[trigger] tiles@[j]) {
                    props@[j] == tiles@[j] && ground@[j] == spec_infer_ground(
                        j,
                        tiles@,
                        w as int,
                        h as int,
                        spec_prop_tile_ids(),
                    )
                } else {
                    props@[j] == EMPTY_PROP_ID && ground@[j] == tiles@[j]
                }
            },
        decreases n - i,
    {
        let t = tiles[i];
        if slice_contains(ids.as_slice(), t) {
            props.push(t);
            ground.push(infer_ground(i, tiles.as_slice(), w, h, ids.as_slice()));
        } else {
            props.push(EMPTY_PROP_ID);
            ground.push(t);
        }
        i = i + 1;
    }
    Ok((ground, props))
}

} // verus!
