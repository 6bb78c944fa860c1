//! Exploration step pacing: how many ticks an actor waits between grid steps.

use vstd::prelude::*;

use crate::math::{max_int, min_int};

verus! {

/// Ticks of one orthogonal step at speed 1; faster actors divide this.
pub const BASE_STEP_TICKS: u16 = 48;
/// Fastest possible pacing.
pub const MIN_STEP_TICKS: u16 = 2;
/// Slowest possible pacing.
pub const MAX_STEP_TICKS: u16 = 24;

/// `BASE_STEP_TICKS / speed` (speed at least 1), kept within the pacing bounds.
pub open spec fn spec_step_ticks(speed: u16) -> int {
    let base = BASE_STEP_TICKS as int / max_int(speed as int, 1);
    max_int(MIN_STEP_TICKS as int, min_int(base, MAX_STEP_TICKS as int))
}

/// A diagonal step takes 14/10 of an orthogonal one.
pub open spec fn spec_move_ticks(speed: u16, dx: i32, dy: i32) -> int {
    if dx != 0 && dy != 0 {
        spec_step_ticks(speed) * 14 / 10
    } else {
        spec_step_ticks(speed)
    }
}

/// Leisurely steps (roam, patrol) take twice as long.
pub open spec fn spec_explore_cooldown(leisurely: bool, speed: u16, dx: i32, dy: i32) -> int {
    if leisurely {
        2 * spec_move_ticks(speed, dx, dy)
    } else {
        spec_move_ticks(speed, dx, dy)
    }
}

pub fn visual_step_cooldown_ticks_from_speed(speed: u16) -> (t: u16)
    ensures
        t == spec_step_ticks(speed),
        MIN_STEP_TICKS <= t <= MAX_STEP_TICKS,
{
    let s: u16 = if speed >= 1 { speed } else { 1 };
    let base: u16 = BASE_STEP_TICKS / s;
    let capped: u16 = if base <= MAX_STEP_TICKS { base } else { MAX_STEP_TICKS };
    if capped >= MIN_STEP_TICKS { capped } else { MIN_STEP_TICKS }
}

pub fn visual_step_cooldown_for_move(speed: u16, dx: i32, dy: i32) -> (t: u16)
    ensures
        t == spec_move_ticks(speed, dx, dy),
{
    let base = visual_step_cooldown_ticks_from_speed(speed);
    if dx != 0 && dy != 0 {
        base * 14 / 10
    } else {
        base
    }
}

pub fn explore_step_cooldown(leisurely: bool, speed: u16, dx: i32, dy: i32) -> (t: u16)
    ensures
        t == spec_explore_cooldown(leisurely, speed, dx, dy),
{
    let c = visual_step_cooldown_for_move(speed, dx, dy);
    if leisurely {
        2 * c
    } else {
        c
    }
}

} // verus!
