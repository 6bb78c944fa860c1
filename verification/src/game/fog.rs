//! The mist texture drawn over unexplored cells.

use vstd::prelude::*;
use vstd::wrapping::u64_specs::{wrapping_add, wrapping_mul};

use crate::math::{mix64, spec_mix64};

verus! {

/// `(weight, glyph)` pairs of the mist texture; the weights sum to 256.
pub open spec fn spec_fog_weights() -> Seq<(u16, char)> {
    seq![(166u16, ' '), (39u16, '·'), (27u16, '░'), (16u16, '▒'), (8u16, '▓')]
}

pub fn fog_glyph_weights() -> (w: Vec<(u16, char)>)
    ensures
        w@ == spec_fog_weights(),
{
    vec![(166u16, ' '), (39u16, '·'), (27u16, '░'), (16u16, '▒'), (8u16, '▓')]
}

/// Sum of the first `k` weights.
pub open spec fn weight_prefix(w: Seq<(u16, char)>, k: int) -> int
    decreases k,
{
    if k <= 0 {
        0
    } else {
        weight_prefix(w, k - 1) + w[k - 1].0
    }
}

/// Glyph of the first entry from `k` on whose cumulative weight exceeds `x` (`░` when
/// none does).
pub open spec fn weighted_from(w: Seq<(u16, char)>, x: int, k: int) -> char
    decreases w.len() - k,
{
    if k < 0 || k >= w.len() {
        '░'
    } else if x < weight_prefix(w, k + 1) {
        w[k].1
    } else {
        weighted_from(w, x, k + 1)
    }
}

/// Mist glyph for a byte `r`: each glyph covers a share of `0..256` proportional to its
/// weight.
pub open spec fn spec_weighted_fog_glyph(r: u8) -> char {
    weighted_from(spec_fog_weights(), r as int, 0)
}

proof fn lemma_fog_prefixes()
    ensures
        weight_prefix(spec_fog_weights(), 0) == 0,
        weight_prefix(spec_fog_weights(), 1) == 166,
        weight_prefix(spec_fog_weights(), 2) == 205,
        weight_prefix(spec_fog_weights(), 3) == 232,
        weight_prefix(spec_fog_weights(), 4) == 248,
        weight_prefix(spec_fog_weights(), 5) == 256,
{
    reveal_with_fuel(weight_prefix, 6);
}

/// The weights of the mist texture sum to 256.
pub proof fn lemma_fog_weights_total()
    ensures
        weight_prefix(spec_fog_weights(), spec_fog_weights().len() as int) == 256,
{
    lemma_fog_prefixes();
}

pub fn weighted_fog_glyph(r: u8) -> (c: char)
    ensures
        c == spec_weighted_fog_glyph(r),
{
    let w = fog_glyph_weights();
    let x = r as u16;
    let mut hi: u16 = 0;
    let mut i: usize = 0;
    proof { lemma_fog_prefixes(); }
    while i < w.len()
        invariant
            w@ == spec_fog_weights(),
            x as int == r as int,
            i <= 5,
            hi == weight_prefix(w@, i as int),
            weight_prefix(spec_fog_weights(), 0) == 0,
            weight_prefix(spec_fog_weights(), 1) == 166,
            weight_prefix(spec_fog_weights(), 2) == 205,
            weight_prefix(spec_fog_weights(), 3) == 232,
            weight_prefix(spec_fog_weights(), 4) == 248,
            weight_prefix(spec_fog_weights(), 5) == 256,
            weighted_from(w@, x as int, 0) == weighted_from(w@, x as int, i as int),
        decreases 5 - i,
    {
        assert(weight_prefix(w@, i + 1) == hi + w@[i as int].0);
        hi = hi + w[i].0;
        if x < hi {
            assert(weighted_from(w@, x as int, i as int) == w@[i as int].1);
            return w[i].1;
        }
        assert(weighted_from(w@, x as int, i as int) == weighted_from(w@, x as int, i + 1));
        i = i + 1;
    }
    '░'
}

/// `x` rotated left by `k` bits (`0 < k < 64`).
pub open spec fn rotl(x: u64, k: u64) -> u64 {
    (x << k) | (x >> (64 - k) as u64)
}

fn rotate_left(x: u64, k: u64) -> (r: u64)
    requires
        0 < k < 64,
    ensures
        r == rotl(x, k),
{
    (x << k) | (x >> (64 - k))
}

/// Scrambled hash of a world cell and the level seed.
pub open spec fn fog_hash(wx: i32, wy: i32, seed: u64) -> u64 {
    let a = (wx as i64) as u64;
    let b = (wy as i64) as u64;
    let h0 = wrapping_mul(wrapping_add(a, rotl(b, 37)), 0xD134_2543_DE82_EF97u64) ^ wrapping_add(b, rotl(a, 17))
        ^ wrapping_mul(seed, 0xC2B2_AE3D_27D4_EB4Fu64);
    let h1 = spec_mix64(h0);
    let h2 = h1 ^ spec_mix64(rotl(a, 11) ^ wrapping_mul(b, 0x85EB_CA6Bu64) ^ rotl(seed, 5));
    spec_mix64(h2)
}

/// The byte a hash selects the glyph with.
pub open spec fn fog_byte(h: u64) -> u8 {
    ((h ^ (h >> 17u64) ^ (h >> 34u64) ^ (h >> 51u64)) & 0xFFu64) as u8
}

/// Deterministic mist glyph of a world cell.
pub fn unseen_fog_glyph(wx: i32, wy: i32, level_seed: u64) -> (c: char)
    ensures
        c == spec_weighted_fog_glyph(fog_byte(fog_hash(wx, wy, level_seed))),
{
    let a = wx as i64 as u64;
    let b = wy as i64 as u64;
    let mut h = a.wrapping_add(rotate_left(b, 37)).wrapping_mul(0xD134_2543_DE82_EF97u64) ^ b.wrapping_add(
        rotate_left(a, 17),
    ) ^ level_seed.wrapping_mul(0xC2B2_AE3D_27D4_EB4Fu64);
    h = mix64(h);
    h = h ^ mix64(rotate_left(a, 11) ^ b.wrapping_mul(0x85EB_CA6Bu64) ^ rotate_left(level_seed, 5));
    h = mix64(h);
    let r = ((h ^ (h >> 17u64) ^ (h >> 34u64) ^ (h >> 51u64)) & 0xFFu64) as u8;
    weighted_fog_glyph(r)
}

} // verus!
