//! Grid metrics and the small deterministic random number generator shared by the
//! simulation (combat rolls, roam goals, spell damage).

use vstd::prelude::*;

use crate::entity::GridPos;

verus! {

pub open spec fn abs_int(a: int) -> int {
    if a < 0 { -a } else { a }
}

pub open spec fn max_int(a: int, b: int) -> int {
    if a >= b { a } else { b }
}

pub open spec fn min_int(a: int, b: int) -> int {
    if a <= b { a } else { b }
}

/// `v` clamped into the range of `i32`.
pub open spec fn clamp_i32(v: int) -> int {
    if v > i32::MAX { i32::MAX as int } else if v < i32::MIN { i32::MIN as int } else { v }
}

/// Chebyshev (king-move) distance between two cells.
pub open spec fn spec_chebyshev(a: GridPos, b: GridPos) -> int {
    max_int(abs_int(a.x - b.x), abs_int(a.y - b.y))
}

/// Manhattan (taxicab) distance between two cells.
pub open spec fn spec_manhattan(a: GridPos, b: GridPos) -> int {
    abs_int(a.x - b.x) + abs_int(a.y - b.y)
}

/// Squared Euclidean distance between two cells.
pub open spec fn spec_dist_sq(a: GridPos, b: GridPos) -> int {
    (a.x - b.x) * (a.x - b.x) + (a.y - b.y) * (a.y - b.y)
}

/// Chebyshev distance, saturated at `i32::MAX` (only reachable for cells more than
/// two billion tiles apart).
pub fn chebyshev(a: GridPos, b: GridPos) -> (d: i32)
    ensures
        d == clamp_i32(spec_chebyshev(a, b)),
        d >= 0,
{
    let dx: i64 = a.x as i64 - b.x as i64;
    let dy: i64 = a.y as i64 - b.y as i64;
    let ax: i64 = if dx < 0 { -dx } else { dx };
    let ay: i64 = if dy < 0 { -dy } else { dy };
    let m: i64 = if ax >= ay { ax } else { ay };
    if m > i32::MAX as i64 {
        i32::MAX
    } else {
        m as i32
    }
}

/// Manhattan distance, saturated at `i32::MAX`.
pub fn manhattan(a: GridPos, b: GridPos) -> (d: i32)
    ensures
        d == clamp_i32(spec_manhattan(a, b)),
        d >= 0,
{
    let dx: i64 = a.x as i64 - b.x as i64;
    let dy: i64 = a.y as i64 - b.y as i64;
    let ax: i64 = if dx < 0 { -dx } else { dx };
    let ay: i64 = if dy < 0 { -dy } else { dy };
    let s: i64 = ax + ay;
    if s > i32::MAX as i64 {
        i32::MAX
    } else {
        s as i32
    }
}

/// `dx² + dy²` (never overflows: at most `2 * 2^62`).
pub fn euclidean_dist_sq(dx: i32, dy: i32) -> (d: u64)
    ensures
        d as int == dx * dx + dy * dy,
{
    let ax: u64 = if dx < 0 { (-(dx as i64)) as u64 } else { dx as u64 };
    let ay: u64 = if dy < 0 { (-(dy as i64)) as u64 } else { dy as u64 };
    assert(ax * ax <= 0x4000_0000_0000_0000) by (nonlinear_arith)
        requires ax <= 0x8000_0000;
    assert(ay * ay <= 0x4000_0000_0000_0000) by (nonlinear_arith)
        requires ay <= 0x8000_0000;
    assert(ax * ax == dx * dx) by (nonlinear_arith)
        requires ax == abs_int(dx as int);
    assert(ay * ay == dy * dy) by (nonlinear_arith)
        requires ay == abs_int(dy as int);
    ax * ax + ay * ay
}

/// Whether `b` lies within the Euclidean disc of radius `r` around `a` (a circle, not a
/// square). A negative radius contains nothing.
pub open spec fn spec_within_euclidean_radius(a: GridPos, b: GridPos, r: int) -> bool {
    r >= 0 && spec_dist_sq(a, b) <= r * r
}

pub fn within_euclidean_radius(a: GridPos, b: GridPos, r: i32) -> (res: bool)
    ensures
        res == spec_within_euclidean_radius(a, b, r as int),
{
    if r < 0 {
        return false;
    }
    let dx: i64 = a.x as i64 - b.x as i64;
    let dy: i64 = a.y as i64 - b.y as i64;
    let ax: u128 = if dx < 0 { (-dx) as u128 } else { dx as u128 };
    let ay: u128 = if dy < 0 { (-dy) as u128 } else { dy as u128 };
    assert(ax * ax <= 0x1_0000_0000_0000_0000) by (nonlinear_arith)
        requires ax <= 0x1_0000_0000;
    assert(ay * ay <= 0x1_0000_0000_0000_0000) by (nonlinear_arith)
        requires ay <= 0x1_0000_0000;
    assert(ax * ax == (a.x - b.x) * (a.x - b.x)) by (nonlinear_arith)
        requires ax == abs_int(a.x - b.x);
    assert(ay * ay == (a.y - b.y) * (a.y - b.y)) by (nonlinear_arith)
        requires ay == abs_int(a.y - b.y);
    let rr: u128 = r as u128;
    assert(rr * rr <= 0x4000_0000_0000_0000) by (nonlinear_arith)
        requires rr <= 0x8000_0000;
    ax * ax + ay * ay <= rr * rr
}

/// Multiplier of the linear congruential generator.
pub const LCG_MULTIPLIER: u64 = 6_364_136_223_846_793_005;

/// One step of the generator's state.
pub open spec fn lcg_step(seed: u64) -> u64 {
    vstd::wrapping::u64_specs::wrapping_add(
        vstd::wrapping::u64_specs::wrapping_mul(seed, LCG_MULTIPLIER), 1)
}

/// Advances `seed` one step and returns the high 32 bits of the new state.
pub fn lcg_next_u32(seed: &mut u64) -> (r: u32)
    ensures
        *final(seed) == lcg_step(*old(seed)),
        r == (*final(seed) >> 32u64) as u32,
{
    *seed = seed.wrapping_mul(LCG_MULTIPLIER).wrapping_add(1);
    (*seed >> 32u64) as u32
}

/// Uniform-ish integer in `lo..=hi` drawn from `seed`.
pub fn random_inclusive(seed: &mut u64, lo: i32, hi: i32) -> (v: i32)
    requires
        lo <= hi,
        hi - lo + 1 <= u32::MAX,
    ensures
        lo <= v <= hi,
        *final(seed) == lcg_step(*old(seed)),
        v == lo + ((*final(seed) >> 32u64) as u32) % ((hi - lo + 1) as u32),
{
    let span: u32 = (hi as i64 - lo as i64 + 1) as u32;
    let r = lcg_next_u32(seed);
    let off: u32 = r % span;
    (lo as i64 + off as i64) as i32
}

/// Sign of `v`: `-1`, `0` or `1`.
pub open spec fn spec_signum(v: int) -> int {
    if v > 0 { 1 } else if v < 0 { -1 } else { 0 }
}

pub fn signum(v: i32) -> (s: i32)
    ensures
        s == spec_signum(v as int),
{
    if v > 0 { 1 } else if v < 0 { -1 } else { 0 }
}

/// Final mixing step of the splitmix64 generator (a bijective 64-bit scrambler).
pub open spec fn spec_mix64(z: u64) -> u64 {
    let a = vstd::wrapping::u64_specs::wrapping_mul(z ^ (z >> 30u64), 0xbf58_476d_1ce4_e5b9u64);
    let b = vstd::wrapping::u64_specs::wrapping_mul(a ^ (a >> 27u64), 0x94d0_49bb_1331_11ebu64);
    b ^ (b >> 31u64)
}

pub fn mix64(z: u64) -> (r: u64)
    ensures
        r == spec_mix64(z),
{
    let a = (z ^ (z >> 30u64)).wrapping_mul(0xbf58_476d_1ce4_e5b9u64);
    let b = (a ^ (a >> 27u64)).wrapping_mul(0x94d0_49bb_1331_11ebu64);
    b ^ (b >> 31u64)
}

} // verus!
