//! In-flight arrows and melee flashes animating on the world view.

use vstd::prelude::*;

use crate::color::Color;
use crate::entity::GridPos;
use crate::math::clamp_i32;

verus! {

/// A flying arrow or a melee flash.
#[derive(Clone, Copy, Debug)]
pub struct Projectile {
    pub from: GridPos,
    pub to: GridPos,
    /// Ticks since spawning.
    pub ticks_elapsed: u8,
    /// Lifetime; removed once `ticks_elapsed >= total_ticks`.
    pub total_ticks: u8,
    pub glyph: char,
    pub color: Color,
    /// An arrow travelling from `from` to `to` (otherwise a flash at `to`).
    pub is_ranged: bool,
}

/// `n / d` rounded to the nearest integer, halves away from zero (`d > 0`).
pub open spec fn round_div(n: int, d: int) -> int {
    if n >= 0 {
        (2 * n + d) / (2 * d)
    } else {
        -((-2 * n + d) / (2 * d))
    }
}

/// Coordinate `a + (b - a) * e / t`, rounded, saturated at the `i32` range.
pub open spec fn lerp_coord(a: int, b: int, e: int, t: int) -> int {
    clamp_i32(round_div(a * t + (b - a) * e, t))
}

impl Projectile {
    /// Where the projectile is drawn: along the segment in proportion to the elapsed
    /// ticks (rounded to the nearest cell); a flash, or a projectile without lifetime, is
    /// at its target.
    pub open spec fn spec_current_pos(&self) -> GridPos {
        if self.total_ticks == 0 || !self.is_ranged {
            self.to
        } else {
            let e = self.ticks_elapsed as int;
            let t = self.total_ticks as int;
            GridPos {
                x: lerp_coord(self.from.x as int, self.to.x as int, e, t) as i32,
                y: lerp_coord(self.from.y as int, self.to.y as int, e, t) as i32,
            }
        }
    }

    /// Where the projectile is drawn (see [`Projectile::spec_current_pos`]). The position is
    /// computed exactly in integers, on purpose: an `f32` interpolation gives the same cell
    /// for coordinates below 2^24 but loses precision beyond them.
    pub fn current_pos(&self) -> (p: GridPos)
        ensures
            p == self.spec_current_pos(),
    {
        if self.total_ticks == 0 || !self.is_ranged {
            return self.to;
        }
        let e = self.ticks_elapsed as i64;
        let t = self.total_ticks as i64;
        GridPos { x: lerp(self.from.x, self.to.x, e, t), y: lerp(self.from.y, self.to.y, e, t) }
    }

    /// The projectile has finished its flight.
    pub fn is_expired(&self) -> (b: bool)
        ensures
            b == (self.ticks_elapsed >= self.total_ticks),
    {
        self.ticks_elapsed >= self.total_ticks
    }
}

fn lerp(a: i32, b: i32, e: i64, t: i64) -> (r: i32)
    requires
        0 <= e <= 255,
        1 <= t <= 255,
    ensures
        r == lerp_coord(a as int, b as int, e as int, t as int),
{
    let d: i64 = b as i64 - a as i64;
    assert(-0x1_0000_0000 * 255 <= d * e <= 0x1_0000_0000 * 255) by (nonlinear_arith)
        requires -0x1_0000_0000 <= d <= 0x1_0000_0000, 0 <= e <= 255;
    assert(-0x8000_0000 * 255 <= (a as i64) * t <= 0x8000_0000 * 255) by (nonlinear_arith)
        requires -0x8000_0000 <= a <= 0x8000_0000, 1 <= t <= 255;
    let n: i64 = a as i64 * t + d * e;
    assert(-0x10_0000_0000_0000 <= n <= 0x10_0000_0000_0000);
    let v: i64 = if n >= 0 {
        (2 * n + t) / (2 * t)
    } else {
        let m: i64 = -n;
        -((2 * m + t) / (2 * t))
    };
    if v > i32::MAX as i64 {
        i32::MAX
    } else if v < i32::MIN as i64 {
        i32::MIN
    } else {
        v as i32
    }
}

/// Color of a flying arrow (slightly warm white).
pub fn arrow_color() -> (c: Color)
    ensures
        c == (Color { r: 230, g: 220, b: 160 }),
{
    Color::rgb(230, 220, 160)
}

/// Color of a melee flash (orange-white).
pub fn melee_flash_color() -> (c: Color)
    ensures
        c == (Color { r: 255, g: 200, b: 120 }),
{
    Color::rgb(255, 200, 120)
}

/// Arrow glyph for the direction from `from` to `to` (`*` on the same cell).
pub open spec fn spec_arrow_glyph(from: GridPos, to: GridPos) -> char {
    let dx = crate::math::spec_signum(to.x - from.x);
    let dy = crate::math::spec_signum(to.y - from.y);
    if dx == 1 && dy == 0 {
        '→'
    } else if dx == -1 && dy == 0 {
        '←'
    } else if dx == 0 && dy == -1 {
        '↑'
    } else if dx == 0 && dy == 1 {
        '↓'
    } else if dx == 1 && dy == -1 {
        '↗'
    } else if dx == -1 && dy == -1 {
        '↖'
    } else if dx == 1 && dy == 1 {
        '↘'
    } else if dx == -1 && dy == 1 {
        '↙'
    } else {
        '*'
    }
}

pub fn arrow_glyph(from: GridPos, to: GridPos) -> (c: char)
    ensures
        c == spec_arrow_glyph(from, to),
{
    let ddx: i64 = to.x as i64 - from.x as i64;
    let ddy: i64 = to.y as i64 - from.y as i64;
    let dx: i32 = if ddx > 0 { 1 } else if ddx < 0 { -1 } else { 0 };
    let dy: i32 = if ddy > 0 { 1 } else if ddy < 0 { -1 } else { 0 };
    if dx == 1 && dy == 0 {
        '→'
    } else if dx == -1 && dy == 0 {
        '←'
    } else if dx == 0 && dy == -1 {
        '↑'
    } else if dx == 0 && dy == 1 {
        '↓'
    } else if dx == 1 && dy == -1 {
        '↗'
    } else if dx == -1 && dy == -1 {
        '↖'
    } else if dx == 1 && dy == 1 {
        '↘'
    } else if dx == -1 && dy == 1 {
        '↙'
    } else {
        '*'
    }
}

} // verus!
