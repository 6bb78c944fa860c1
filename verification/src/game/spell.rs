//! Spell definitions and targeting.

use vstd::prelude::*;

use crate::combat::seed_after;
use crate::content::ContentRuntimeHooks;
use crate::entity::{ActorStats, EntityArena, EntityId, GridPos};
use crate::math::{lcg_next_u32, spec_within_euclidean_radius, within_euclidean_radius};
use crate::text::{decimal, spec_decimal};
use super::effects::{ActiveAreaEffect, AreaEffect, AreaEffectKind};
use super::state::{lines, log_line, lemma_lines_push, Game};

verus! {

/// Spells the player can cast.
#[derive(Clone, Copy, Debug, PartialEq, Eq, Structural)]
pub enum SpellKind {
    Fireball,
}

/// Static properties of a spell.
#[derive(Clone, Copy, Debug)]
pub struct SpellDef {
    pub name: &'static str,
    /// Max Euclidean distance from the caster to the target center.
    pub range: i32,
    /// Euclidean radius of the area of effect.
    pub aoe_radius: u8,
    /// Damage dealt to every entity in the area.
    pub damage_base: u16,
    /// Extra random damage, rolled in `0..damage_random`.
    pub damage_random: u16,
    /// Ticks before the spell can be cast again.
    pub cooldown_ticks: u16,
    /// Lifetime of the lingering area effect.
    pub effect_duration_ticks: u32,
    /// Peak strength of the area effect.
    pub effect_strength: u8,
}

/// Casting range of `kind`.
pub open spec fn spec_range(kind: SpellKind) -> int {
    match kind {
        SpellKind::Fireball => 15,
    }
}

/// The static definition of `kind`.
pub open spec fn spec_def(kind: SpellKind) -> SpellDef {
    match kind {
        SpellKind::Fireball => SpellDef {
            name: "Fireball",
            range: 15,
            aoe_radius: 5,
            damage_base: 3,
            damage_random: 5,
            cooldown_ticks: 90,
            effect_duration_ticks: 120,
            effect_strength: 200,
        },
    }
}

/// The static definition of `kind`.
pub fn def(kind: SpellKind) -> (d: &'static SpellDef)
    ensures
        d.range == spec_range(kind),
        *d == spec_def(kind),
{
    match kind {
        SpellKind::Fireball => &SpellDef {
            name: "Fireball",
            range: 15,
            aoe_radius: 5,
            damage_base: 3,
            damage_random: 5,
            cooldown_ticks: 90,
            effect_duration_ticks: 120,
            effect_strength: 200,
        },
    }
}

/// Whether `target` is within casting range of `caster`.
pub fn in_range(caster: GridPos, target: GridPos, spell: SpellKind) -> (b: bool)
    ensures
        b == spec_within_euclidean_radius(caster, target, spec_range(spell)),
{
    within_euclidean_radius(caster, target, def(spell).range)
}


/// Slot `j` is hit by a blast of radius `r` at `target`: a live entity other than the
/// player standing within that Euclidean distance.
pub open spec fn in_blast(entities: &EntityArena, target: GridPos, r: int, j: int) -> bool {
    &&& 0 <= j < entities.len()
    &&& entities.alive@[j]
    &&& entities.player != Some(EntityId(j as u32))
    &&& entities.position@[j] matches Some(p)
    &&& spec_within_euclidean_radius(p, target, r)
}

/// The slots below `n` hit by the blast, in slot order.
pub open spec fn blast_targets(entities: &EntityArena, target: GridPos, r: int, n: int) -> Seq<EntityId>
    decreases n,
{
    if n <= 0 {
        Seq::empty()
    } else {
        let rest = blast_targets(entities, target, r, n - 1);
        if in_blast(entities, target, r, n - 1) {
            rest.push(EntityId((n - 1) as u32))
        } else {
            rest
        }
    }
}

/// The targets come in increasing slot order, each below `n`.
pub proof fn lemma_blast_targets_sorted(entities: &EntityArena, target: GridPos, r: int, n: int)
    requires
        n <= 0x1_0000_0000,
    ensures
        forall|a: int, b: int|
            0 <= a < b < blast_targets(entities, target, r, n).len() ==> (#[trigger] blast_targets(entities, target, r, n)[a]).0
                < (#[trigger] blast_targets(entities, target, r, n)[b]).0,
        forall|a: int|
            0 <= a < blast_targets(entities, target, r, n).len() ==> (#[trigger] blast_targets(
                entities,
                target,
                r,
                n,
            )[a].0) < n,
        forall|a: int|
            0 <= a < blast_targets(entities, target, r, n).len() ==> in_blast(
                entities,
                target,
                r,
                #[trigger] blast_targets(entities, target, r, n)[a].0 as int,
            ),
    decreases n,
{
    if n > 0 {
        lemma_blast_targets_sorted(entities, target, r, n - 1);
        let rest = blast_targets(entities, target, r, n - 1);
        let all = blast_targets(entities, target, r, n);
        if in_blast(entities, target, r, n - 1) {
            assert(all == rest.push(EntityId((n - 1) as u32)));
            assert forall|a: int, b: int| 0 <= a < b < all.len() implies (#[trigger] all[a]).0 < (#[trigger] all[b]).0 by {
                if b < rest.len() {
                    assert(all[a] == rest[a] && all[b] == rest[b]);
                } else {
                    assert(all[a] == rest[a]);
                }
            }
            assert forall|a: int| 0 <= a < all.len() implies (#[trigger] all[a]).0 < n by {
                if a < rest.len() {
                    assert(all[a] == rest[a]);
                }
            }
            assert forall|a: int| 0 <= a < all.len() implies in_blast(entities, target, r, #[trigger] all[a].0 as int) by {
                if a < rest.len() {
                    assert(all[a] == rest[a]);
                }
            }
        }
    }
}

/// Target `t` is not among the targets before it.
pub proof fn lemma_not_yet_targeted(targets: Seq<EntityId>, t: int)
    requires
        0 <= t < targets.len(),
        forall|a: int, b: int| 0 <= a < b < targets.len() ==> (#[trigger] targets[a]).0 < (#[trigger] targets[b]).0,
    ensures
        !targeted(targets.take(t), targets[t].0 as int),
{
    let tk = targets.take(t);
    if targeted(tk, targets[t].0 as int) {
        let k = choose|k: int| 0 <= k < tk.len() && tk[k].0 == targets[t].0;
        assert(targets[k].0 < targets[t].0);
    }
}

/// Processing target `t` (slot `targets[t]`, which took `blast_damage(d, seed, t)`)
/// extends what the first `t` targets did.
pub proof fn lemma_blast_step(
    e0: &EntityArena,
    e1: &EntityArena,
    e2: &EntityArena,
    targets: Seq<EntityId>,
    d: SpellDef,
    seed: u64,
    t: int,
)
    requires
        0 <= t < targets.len(),
        forall|a: int, b: int| 0 <= a < b < targets.len() ==> (#[trigger] targets[a]).0 < (#[trigger] targets[b]).0,
        forall|a: int| 0 <= a < targets.len() ==> (#[trigger] targets[a].0) < e0.len(),
        blasted(e0, e1, targets.take(t), d, seed),
        e2.len() == e1.len(),
        e2.next_id == e1.next_id,
        e2.player == e1.player,
        forall|x: int| 0 <= x < e1.len() && x != targets[t].0 ==> #[trigger] e2.same_slot(e1, x),
        took_blast(e1, e2, targets[t].0 as int, blast_damage(d, seed, t)),
    ensures
        blasted(e0, e2, targets.take(t + 1), d, seed),
{
    let j = targets[t].0 as int;
    let tk = targets.take(t);
    let tk1 = targets.take(t + 1);
    assert(!targeted(tk, j)) by {
        if targeted(tk, j) {
            let k = choose|k: int| 0 <= k < tk.len() && tk[k].0 == j;
            assert(targets[k].0 < targets[t].0);
        }
    }
    assert(e1.same_slot(e0, j));
    assert forall|x: int| 0 <= x < e0.len() implies targeted(tk1, x) == (targeted(tk, x) || x == j) by {
        if targeted(tk1, x) {
            let k = choose|k: int| 0 <= k < tk1.len() && tk1[k].0 == x;
            if k < t {
                assert(tk[k] == tk1[k]);
            }
        }
        if targeted(tk, x) {
            let k = choose|k: int| 0 <= k < tk.len() && tk[k].0 == x;
            assert(tk1[k] == tk[k]);
        }
        if x == j {
            assert(tk1[t] == targets[t]);
        }
    }
    assert forall|k: int| 0 <= k < tk1.len() implies took_blast(e0, e2, #[trigger] tk1[k].0 as int, blast_damage(d, seed, k)) by {
        if k < t {
            assert(tk1[k] == tk[k]);
            assert(targets[k].0 < targets[t].0);
            assert(took_blast(e0, e1, tk[k].0 as int, blast_damage(d, seed, k)));
            assert(e2.same_slot(e1, tk[k].0 as int));
        } else {
            assert(tk1[k] == targets[t]);
        }
    }
    assert forall|x: int| 0 <= x < e0.len() && !targeted(tk1, x) implies #[trigger] e2.same_slot(e0, x) by {
        assert(e1.same_slot(e0, x));
        assert(e2.same_slot(e1, x));
    }
}

/// Damage of the `k`-th target of `d`, drawing from the generator started at `seed`.
pub open spec fn blast_damage(d: SpellDef, seed: u64, k: int) -> int {
    d.damage_base + if d.damage_random > 0 {
        (((seed_after(seed, (k + 1) as nat) >> 32u64) as u32) % (d.damage_random as u32)) as int
    } else {
        0
    }
}

/// Generator state after `m` targets.
pub open spec fn seed_after_blast(d: SpellDef, seed: u64, m: int) -> u64 {
    if d.damage_random > 0 { seed_after(seed, m as nat) } else { seed }
}

/// `hp` less `dmg`, stopping at 0.
pub open spec fn hp_after(hp: u16, dmg: int) -> int {
    if hp >= dmg { hp - dmg } else { 0 }
}

/// Log line for a target named `name` taking `dmg` and ending at `left` HP.
pub open spec fn blast_message(name: Seq<char>, dmg: int, left: int) -> Seq<char> {
    if left > 0 {
        "Fireball hits "@ + name + " for "@ + spec_decimal(dmg as nat) + " damage."@
    } else {
        "Fireball defeats "@ + name + "!"@
    }
}

/// Log lines of the first `t` targets.
pub open spec fn blast_log(entities: &EntityArena, targets: Seq<EntityId>, d: SpellDef, seed: u64, t: int) -> Seq<Seq<char>>
    decreases t,
{
    if t <= 0 {
        Seq::empty()
    } else {
        let k = t - 1;
        let j = targets[k].0 as int;
        let dmg = blast_damage(d, seed, k);
        blast_log(entities, targets, d, seed, k).push(
            blast_message(entities.name@[j]@, dmg, hp_after(entities.combat_stats@[j].hp, dmg)),
        )
    }
}

/// Slot `j` of `after` is slot `j` of `before` after taking `dmg`: with HP left it keeps
/// everything else, otherwise it is emptied.
pub open spec fn took_blast(before: &EntityArena, after: &EntityArena, j: int, dmg: int) -> bool {
    let left = hp_after(before.combat_stats@[j].hp, dmg);
    if left > 0 {
        &&& after.alive@[j] == before.alive@[j]
        &&& after.position@[j] == before.position@[j]
        &&& after.blocks_movement@[j] == before.blocks_movement@[j]
        &&& after.glyph@[j] == before.glyph@[j]
        &&& after.fg@[j] == before.fg@[j]
        &&& after.name@[j] == before.name@[j]
        &&& after.npc_kind@[j] == before.npc_kind@[j]
        &&& after.item@[j] == before.item@[j]
        &&& after.is_container@[j] == before.is_container@[j]
        &&& after.npc_brain@[j] == before.npc_brain@[j]
        &&& after.combat_stats@[j] == (ActorStats { hp: left as u16, ..before.combat_stats@[j] })
    } else {
        after.slot_is_default(j)
    }
}

/// Slot `j` is one of `targets`.
pub open spec fn targeted(targets: Seq<EntityId>, j: int) -> bool {
    exists|k: int| 0 <= k < targets.len() && targets[k].0 == j
}

/// `after` is `before` once a fireball `d` hit every target of `targets` (in order)
/// with rolls drawn from `seed`.
pub open spec fn blasted(before: &EntityArena, after: &EntityArena, targets: Seq<EntityId>, d: SpellDef, seed: u64) -> bool {
    &&& after.len() == before.len()
    &&& after.next_id == before.next_id
    &&& after.player == before.player
    &&& forall|k: int|
        0 <= k < targets.len() ==> took_blast(before, after, #[trigger] targets[k].0 as int, blast_damage(d, seed, k))
    &&& forall|j: int| 0 <= j < before.len() && !targeted(targets, j) ==> #[trigger] after.same_slot(before, j)
}

/// `after` is `before` once fireball `d` struck `target`: see [`cast_spell`].
pub open spec fn fireball_cast<H: ContentRuntimeHooks>(before: &Game<H>, after: &Game<H>, target: GridPos, d: SpellDef) -> bool {
    let r = d.aoe_radius as int;
    let targets = blast_targets(&before.entities, target, r, before.entities.len());
    let hits = blast_log(&before.entities, targets, d, before.rng_seed, targets.len() as int);
    &&& *after == (Game {
        entities: after.entities,
        log: after.log,
        rng_seed: after.rng_seed,
        active_area_effects: after.active_area_effects,
        fireball_cooldown_ticks: d.cooldown_ticks,
        ..*before
    })
    &&& blasted(&before.entities, &after.entities, targets, d, before.rng_seed)
    &&& after.rng_seed == seed_after_blast(d, before.rng_seed, targets.len() as int)
    &&& lines(after.log@) == if targets.len() == 0 {
        lines(before.log@).push("Fireball erupts — no targets hit."@)
    } else {
        lines(before.log@) + hits
    }
    &&& after.active_area_effects@ == before.active_area_effects@.push(
        ActiveAreaEffect {
            effect: AreaEffect {
                center: target,
                radius: d.aoe_radius,
                strength: d.effect_strength,
                kind: AreaEffectKind::Fire,
                phase: 0,
            },
            remaining_ticks: d.effect_duration_ticks,
        },
    )
}

/// Casts `spell` from the player's position at `target`.
///
/// Fails, changing nothing, without a placed player (`"No player to cast."`), when
/// `target` is out of range (`"Target is out of range."`) or while the spell cools down
/// (`"Spell is still on cooldown."`). Otherwise every live entity other than the player
/// within the area radius of `target` takes the spell's damage (its base plus a roll below
/// its random part, drawn in slot order) and is removed at 0 HP, each hit is logged (or
/// that nothing was hit), a lingering fire effect starts at `target`, and the cooldown
/// starts.
pub fn cast_spell<H: ContentRuntimeHooks>(game: &mut Game<H>, spell: SpellKind, target: GridPos) -> (r: Result<(), &'static str>)
    requires
        old(game).wf(),
    ensures
        final(game).wf(),
        ({
            match old(game).spec_player_pos() {
                None => r == Err::<(), &'static str>("No player to cast.") && *final(game) == *old(game),
                Some(caster) => if !spec_within_euclidean_radius(caster, target, spec_range(spell)) {
                    r == Err::<(), &'static str>("Target is out of range.") && *final(game) == *old(game)
                } else if old(game).fireball_cooldown_ticks > 0 {
                    r == Err::<(), &'static str>("Spell is still on cooldown.") && *final(game) == *old(game)
                } else {
                    &&& r is Ok
                    &&& fireball_cast(old(game), final(game), target, spec_def(spell))
                },
            }
        }),
{
    let caster_pos = match game.player_pos() {
        Some(p) => p,
        None => { return Err("No player to cast."); },
    };
    let d = def(spell);
    if !in_range(caster_pos, target, spell) {
        return Err("Target is out of range.");
    }
    if game.fireball_cooldown_ticks > 0 {
        return Err("Spell is still on cooldown.");
    }
    match spell {
        SpellKind::Fireball => cast_fireball(game, target, d),
    }
    Ok(())
}

/// Damage of one target hit with the generator at `seed`.
pub open spec fn strike_damage(d: SpellDef, seed: u64) -> int {
    d.damage_base + if d.damage_random > 0 {
        (((crate::math::lcg_step(seed) >> 32u64) as u32) % (d.damage_random as u32)) as int
    } else {
        0
    }
}

/// Deals one fireball hit to `eid`, logs it, and removes the target at 0 HP.
fn strike<H: ContentRuntimeHooks>(game: &mut Game<H>, eid: EntityId, d: &SpellDef)
    requires
        old(game).wf(),
        (eid.0 as int) < old(game).entities.len(),
        d.damage_base as int + d.damage_random as int <= u16::MAX,
    ensures
        final(game).wf(),
        *final(game) == (Game { entities: final(game).entities, log: final(game).log, rng_seed: final(game).rng_seed, ..*old(game) }),
        final(game).rng_seed == if d.damage_random > 0 {
            crate::math::lcg_step(old(game).rng_seed)
        } else {
            old(game).rng_seed
        },
        final(game).entities.len() == old(game).entities.len(),
        final(game).entities.next_id == old(game).entities.next_id,
        final(game).entities.player == old(game).entities.player,
        took_blast(&old(game).entities, &final(game).entities, eid.0 as int, strike_damage(*d, old(game).rng_seed)),
        forall|x: int|
            0 <= x < old(game).entities.len() && x != eid.0 ==> #[trigger] final(game).entities.same_slot(
                &old(game).entities,
                x,
            ),
        lines(final(game).log@) == lines(old(game).log@).push(
            blast_message(
                old(game).entities.name@[eid.0 as int]@,
                strike_damage(*d, old(game).rng_seed),
                hp_after(
                    old(game).entities.combat_stats@[eid.0 as int].hp,
                    strike_damage(*d, old(game).rng_seed),
                ),
            ),
        ),
{
    let ghost e0 = game.entities;
    let roll: u16 = if d.damage_random > 0 {
        let x = lcg_next_u32(&mut game.rng_seed);
        (x % (d.damage_random as u32)) as u16
    } else {
        0
    };
    let damage: u16 = d.damage_base + roll;
    let st = game.entities.stats(eid).unwrap();
    let hp = st.hp.saturating_sub(damage);
    game.entities.set_stats(eid, ActorStats { hp, ..st });
    let ghost e_mid = game.entities;
    let name = game.entities.name[eid.0 as usize].clone();
    let msg = if hp > 0 {
        String::from_str("Fireball hits ").concat(name.as_str()).concat(" for ").concat(
            decimal(damage as u64).as_str(),
        ).concat(" damage.")
    } else {
        String::from_str("Fireball defeats ").concat(name.as_str()).concat("!")
    };
    proof { lemma_lines_push(game.log@, msg); }
    game.log.push(msg);
    if hp == 0 {
        game.entities.despawn(eid);
    }
    proof {
        assert forall|x: int| 0 <= x < e0.len() && x != eid.0 implies #[trigger] game.entities.same_slot(&e0, x) by {
            assert(e_mid.same_slot(&e0, x));
            if hp == 0 {
                assert(game.entities.same_slot(&e_mid, x));
            }
        }
        assert forall|x: int| 0 <= x < game.entities.combat_stats@.len() implies #[trigger] game.entities.combat_stats@[x].speed
            <= crate::combat::MAX_COMBAT_SPEED by {
            if x != eid.0 {
                assert(game.entities.same_slot(&e0, x));
            }
        }
    }
}

fn cast_fireball<H: ContentRuntimeHooks>(game: &mut Game<H>, target: GridPos, d: &SpellDef)
    requires
        old(game).wf(),
        d.damage_base as int + d.damage_random as int <= u16::MAX,
    ensures
        final(game).wf(),
        fireball_cast(old(game), final(game), target, *d),
{
    let ghost g0 = *game;
    let r = d.aoe_radius as i32;
    let mut targets: Vec<EntityId> = Vec::new();
    let mut i: usize = 0;
    while i < game.entities.alive.len()
        invariant
            i <= game.entities.len(),
            *game == g0,
            g0.wf(),
            r == d.aoe_radius as int,
            targets@ == blast_targets(&g0.entities, target, r as int, i as int),
        decreases game.entities.len() - i,
    {
        let hit = game.entities.alive[i] && !(match game.entities.player {
            Some(p) => p.0 == i as u32,
            None => false,
        }) && match game.entities.position[i] {
            Some(p) => within_euclidean_radius(p, target, r),
            None => false,
        };
        assert(hit == in_blast(&g0.entities, target, r as int, i as int));
        if hit {
            targets.push(EntityId(i as u32));
        }
        i = i + 1;
    }
    proof { lemma_blast_targets_sorted(&g0.entities, target, r as int, g0.entities.len()); }
    let mut t: usize = 0;
    while t < targets.len()
        invariant
            t <= targets@.len(),
            targets@ == blast_targets(&g0.entities, target, r as int, g0.entities.len()),
            forall|a: int, b: int| 0 <= a < b < targets@.len() ==> (#[trigger] targets@[a]).0 < (#[trigger] targets@[b]).0,
            forall|a: int| 0 <= a < targets@.len() ==> (#[trigger] targets@[a].0) < g0.entities.len(),
            d.damage_base as int + d.damage_random as int <= u16::MAX,
            game.wf(),
            g0.wf(),
            *game == (Game { entities: game.entities, log: game.log, rng_seed: game.rng_seed, ..g0 }),
            game.rng_seed == seed_after_blast(*d, g0.rng_seed, t as int),
            lines(game.log@) == lines(g0.log@) + blast_log(&g0.entities, targets@, *d, g0.rng_seed, t as int),
            blasted(&g0.entities, &game.entities, targets@.take(t as int), *d, g0.rng_seed),
        decreases targets@.len() - t,
    {
        let eid = targets[t];
        let ghost e_before = game.entities;
        let ghost log_before = game.log@;
        proof {
            lemma_not_yet_targeted(targets@, t as int);
            assert(e_before.same_slot(&g0.entities, eid.0 as int));
        }
        strike(game, eid, d);
        proof {
            lemma_blast_step(&g0.entities, &e_before, &game.entities, targets@, *d, g0.rng_seed, t as int);
            let j = eid.0 as int;
            let dmg = blast_damage(*d, g0.rng_seed, t as int);
            assert(blast_log(&g0.entities, targets@, *d, g0.rng_seed, t + 1) == blast_log(
                &g0.entities,
                targets@,
                *d,
                g0.rng_seed,
                t as int,
            ).push(blast_message(g0.entities.name@[j]@, dmg, hp_after(g0.entities.combat_stats@[j].hp, dmg))));
        }
        t = t + 1;
    }
    assert(targets@.take(targets@.len() as int) =~= targets@);
    if targets.len() == 0 {
        log_line(&mut game.log, "Fireball erupts — no targets hit.");
    }
    game.trigger_area_effect(
        AreaEffect {
            center: target,
            radius: d.aoe_radius,
            strength: d.effect_strength,
            kind: AreaEffectKind::Fire,
            phase: 0,
        },
        d.effect_duration_ticks,
    );
    game.fireball_cooldown_ticks = d.cooldown_ticks;
}

} // verus!
