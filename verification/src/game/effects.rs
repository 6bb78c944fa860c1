//! World-space area effects (fire, poison cloud, magic aura) and their lifetimes.

use vstd::prelude::*;

use crate::color::Color;
use crate::entity::GridPos;

verus! {

/// What an area effect looks like.
#[derive(Clone, Copy, Debug, PartialEq, Eq, Structural)]
pub enum AreaEffectKind {
    Fire,
    PoisonCloud,
    MagicAura { color: Color },
}

/// A radius tint centred on a world cell.
#[derive(Clone, Copy, Debug, PartialEq, Eq, Structural)]
pub struct AreaEffect {
    pub center: GridPos,
    pub radius: u8,
    /// Peak tint strength.
    pub strength: u8,
    pub kind: AreaEffectKind,
    /// Animation phase.
    pub phase: u8,
}

/// A persistent area effect; it is removed once `remaining_ticks` reaches 0, and
/// `u32::MAX` marks a permanent one.
#[derive(Clone, Copy, Debug)]
pub struct ActiveAreaEffect {
    pub effect: AreaEffect,
    pub remaining_ticks: u32,
}

/// `e` one tick later: a finite lifetime counts down (stopping at 0).
pub open spec fn ticked(e: ActiveAreaEffect) -> ActiveAreaEffect {
    ActiveAreaEffect {
        effect: e.effect,
        remaining_ticks: if e.remaining_ticks == u32::MAX {
            u32::MAX
        } else if e.remaining_ticks == 0 {
            0
        } else {
            (e.remaining_ticks - 1) as u32
        },
    }
}

/// The effects of `s` one tick later, in order, without those whose lifetime ran out.
pub open spec fn tick_all(s: Seq<ActiveAreaEffect>) -> Seq<ActiveAreaEffect>
    decreases s.len(),
{
    if s.len() == 0 {
        Seq::empty()
    } else {
        let rest = tick_all(s.drop_last());
        let t = ticked(s.last());
        if t.remaining_ticks > 0 {
            rest.push(t)
        } else {
            rest
        }
    }
}

/// Counts every effect of `effects` down by one tick and drops the expired ones.
pub fn tick_area_effects(effects: &mut Vec<ActiveAreaEffect>)
    ensures
        final(effects)@ == tick_all(old(effects)@),
{
    let mut out: Vec<ActiveAreaEffect> = Vec::new();
    let mut i: usize = 0;
    while i < effects.len()
        invariant
            i <= effects@.len(),
            effects@ == old(effects)@,
            out@ == tick_all(effects@.take(i as int)),
        decreases effects@.len() - i,
    {
        let e = effects[i];
        let remaining_ticks: u32 = if e.remaining_ticks == u32::MAX {
            u32::MAX
        } else {
            e.remaining_ticks.saturating_sub(1)
        };
        assert(effects@.take(i + 1).drop_last() =~= effects@.take(i as int));
        if remaining_ticks > 0 {
            out.push(ActiveAreaEffect { effect: e.effect, remaining_ticks });
        }
        i = i + 1;
    }
    assert(effects@.take(effects@.len() as int) =~= effects@);
    *effects = out;
}

/// The effects as drawn this frame: each with its animation phase set to the low byte of
/// `surface_tick`.
pub fn frame_area_effects(effects: &Vec<ActiveAreaEffect>, surface_tick: u64) -> (out: Vec<AreaEffect>)
    ensures
        out@.len() == effects@.len(),
        forall|k: int|
            0 <= k < out@.len() ==> #[trigger] out@[k] == (AreaEffect {
                phase: (surface_tick % 256) as u8,
                ..effects@[k].effect
            }),
{
    let phase: u8 = (surface_tick % 256) as u8;
    let mut out: Vec<AreaEffect> = Vec::new();
    let mut i: usize = 0;
    while i < effects.len()
        invariant
            i <= effects@.len(),
            phase == (surface_tick % 256) as u8,
            out@.len() == i,
            forall|k: int|
                0 <= k < i ==> #[trigger] out@[k] == (AreaEffect { phase: phase, ..effects@[k].effect }),
        decreases effects@.len() - i,
    {
        let mut e = effects[i].effect;
        e.phase = phase;
        out.push(e);
        i = i + 1;
    }
    out
}

} // verus!
