//! Deferred attack damage and the projectiles that animate it: queued when an attack is
//! committed, counted down each tick, and applied when the countdown ends.

use vstd::prelude::*;

use crate::color::Color;
use crate::combat::{CombatActionReport, CombatStateView, PendingHit, CombatState, MELEE_HIT_TICKS, PROJECTILE_MIN_TICKS, PROJECTILE_TICKS_PER_CELL};
use crate::content::ContentRuntimeHooks;
use crate::entity::{ActorStats, EntityArena, EntityId, GridPos, NpcBrainState};
use crate::math::{abs_int, max_int};
use super::effects::{tick_area_effects, tick_all};
use super::modes::GameMode;
use super::projectile::{arrow_color, arrow_glyph, melee_flash_color, spec_arrow_glyph, Projectile};
use super::services::combat::{combat_finished, finish_combat};
use super::state::{fow_refreshed, in_combat, lemma_lines_push, lines, Game};

verus! {

// ---------------------------------------------------------------------------------------
// Projectiles
// ---------------------------------------------------------------------------------------

/// `p` one tick later.
pub open spec fn aged(p: Projectile) -> Projectile {
    Projectile { ticks_elapsed: if p.ticks_elapsed == 255 { 255 } else { (p.ticks_elapsed + 1) as u8 }, ..p }
}

/// The projectiles of `ps` one tick later, in order, without those that landed.
pub open spec fn projectiles_after_tick(ps: Seq<Projectile>) -> Seq<Projectile>
    decreases ps.len(),
{
    if ps.len() == 0 {
        Seq::empty()
    } else {
        let rest = projectiles_after_tick(ps.drop_last());
        let a = aged(ps.last());
        if a.ticks_elapsed >= a.total_ticks {
            rest
        } else {
            rest.push(a)
        }
    }
}

fn tick_projectiles(ps: &mut Vec<Projectile>)
    ensures
        final(ps)@ == projectiles_after_tick(old(ps)@),
{
    let mut out: Vec<Projectile> = Vec::new();
    let mut i: usize = 0;
    while i < ps.len()
        invariant
            i <= ps@.len(),
            ps@ == old(ps)@,
            out@ == projectiles_after_tick(ps@.take(i as int)),
        decreases ps@.len() - i,
    {
        let mut p = ps[i];
        p.ticks_elapsed = p.ticks_elapsed.saturating_add(1);
        assert(ps@.take(i + 1).drop_last() =~= ps@.take(i as int));
        if !p.is_expired() {
            out.push(p);
        }
        i = i + 1;
    }
    assert(ps@.take(ps@.len() as int) =~= ps@);
    *ps = out;
}

// ---------------------------------------------------------------------------------------
// Pending hits
// ---------------------------------------------------------------------------------------

/// `h` with its countdown set to `d`.
pub open spec fn with_delay(h: PendingHit, d: u8) -> PendingHit {
    PendingHit { delay_ticks: d, ..h }
}

/// Hits still counting down after one tick, one tick closer (those at 0 are dropped).
pub open spec fn pending_after_tick(hits: Seq<PendingHit>) -> Seq<PendingHit>
    decreases hits.len(),
{
    if hits.len() == 0 {
        Seq::empty()
    } else {
        let rest = pending_after_tick(hits.drop_last());
        let h = hits.last();
        if h.delay_ticks >= 2 {
            rest.push(with_delay(h, (h.delay_ticks - 1) as u8))
        } else {
            rest
        }
    }
}

/// Hits whose countdown ends this tick, in order, with the countdown at 0.
pub open spec fn fired_this_tick(hits: Seq<PendingHit>) -> Seq<PendingHit>
    decreases hits.len(),
{
    if hits.len() == 0 {
        Seq::empty()
    } else {
        let rest = fired_this_tick(hits.drop_last());
        let h = hits.last();
        if h.delay_ticks == 1 {
            rest.push(with_delay(h, 0))
        } else {
            rest
        }
    }
}

/// Stats of a slot (and whether it was emptied) after `h` lands on it.
pub open spec fn hit_fold(st: (ActorStats, bool), h: PendingHit) -> (ActorStats, bool) {
    if h.hit && h.damage > 0 {
        let hp: int = if st.0.hp >= h.damage { st.0.hp - h.damage } else { 0 };
        if hp == 0 && h.lethal {
            (ActorStats::spec_default(), true)
        } else {
            (ActorStats { hp: hp as u16, ..st.0 }, st.1)
        }
    } else {
        st
    }
}

/// Stats of slot `j` (and whether it was emptied) once the first `n` of `hits` landed,
/// starting from `st`.
pub open spec fn slot_fate(st: (ActorStats, bool), hits: Seq<PendingHit>, j: int, n: int) -> (ActorStats, bool)
    decreases n,
{
    if n <= 0 {
        st
    } else {
        let s = slot_fate(st, hits, j, n - 1);
        if hits[n - 1].target.0 == j {
            hit_fold(s, hits[n - 1])
        } else {
            s
        }
    }
}

/// The fate of slot `j` of `a` under the first `n` of `hits`.
pub open spec fn fate_in(a: &EntityArena, hits: Seq<PendingHit>, j: int, n: int) -> (ActorStats, bool) {
    slot_fate((a.combat_stats@[j], false), hits, j, n)
}

/// One of the first `n` of `hits` removed its (existing) target.
pub open spec fn kills_any(a: &EntityArena, hits: Seq<PendingHit>, n: int) -> bool
    decreases n,
{
    if n <= 0 {
        false
    } else {
        let h = hits[n - 1];
        let j = h.target.0 as int;
        kills_any(a, hits, n - 1) || (j < a.len() && h.hit && h.damage > 0 && h.lethal
            && fate_in(a, hits, j, n - 1).0.hp <= h.damage)
    }
}

/// Slot `j` of `a` holds the contents of an emptied slot, apart from its stats.
pub open spec fn cleared_but_stats(a: &EntityArena, j: int) -> bool {
    &&& !a.alive@[j]
    &&& a.position@[j] is None
    &&& !a.blocks_movement@[j]
    &&& a.glyph@[j] == '?'
    &&& a.fg@[j] == Color::spec_default()
    &&& a.name@[j]@.len() == 0
    &&& a.npc_kind@[j] is None
    &&& a.item@[j] is None
    &&& !a.is_container@[j]
    &&& a.npc_brain@[j] == NpcBrainState::spec_default()
}

/// Slot `j` of `a1` equals that of `a0`, apart from its stats.
pub open spec fn same_but_stats(a1: &EntityArena, a0: &EntityArena, j: int) -> bool {
    &&& a1.alive@[j] == a0.alive@[j]
    &&& a1.position@[j] == a0.position@[j]
    &&& a1.blocks_movement@[j] == a0.blocks_movement@[j]
    &&& a1.glyph@[j] == a0.glyph@[j]
    &&& a1.fg@[j] == a0.fg@[j]
    &&& a1.name@[j] == a0.name@[j]
    &&& a1.npc_kind@[j] == a0.npc_kind@[j]
    &&& a1.item@[j] == a0.item@[j]
    &&& a1.is_container@[j] == a0.is_container@[j]
    &&& a1.npc_brain@[j] == a0.npc_brain@[j]
}

/// `a1` is `a0` once the first `n` of `hits` landed, in order: each damages its target
/// (if the slot exists), and a lethal hit that leaves it at 0 HP empties the slot.
pub open spec fn hits_applied(a0: &EntityArena, a1: &EntityArena, hits: Seq<PendingHit>, n: int) -> bool {
    &&& a1.len() == a0.len()
    &&& a1.next_id == a0.next_id
    &&& a1.player == a0.player
    &&& forall|j: int|
        0 <= j < a0.len() ==> {
            let f = #[trigger] fate_in(a0, hits, j, n);
            &&& a1.combat_stats@[j] == f.0
            &&& if f.1 { cleared_but_stats(a1, j) } else { same_but_stats(a1, a0, j) }
        }
}

/// The queued message of each hit.
pub open spec fn hit_messages(hits: Seq<PendingHit>) -> Seq<Seq<char>> {
    hits.map_values(|h: PendingHit| h.resolved_message@)
}

/// `after` is `before` once a tick passed for the deferred effects: area effects and
/// projectiles age, pending hits count down, those reaching 0 land in order (their messages
/// logged), and if one of them removed its target while `state` is the encounter, the
/// encounter ends.
pub open spec fn effects_ticked<H: ContentRuntimeHooks>(
    before: &Game<H>,
    after: &Game<H>,
    state: Option<CombatState>,
) -> bool {
    let fired = fired_this_tick(before.pending_hits@);
    exists|mid: Game<H>|
        #![trigger hits_applied(&before.entities, &mid.entities, fired, fired.len() as int)]
        {
            &&& mid == (Game {
                entities: mid.entities,
                log: mid.log,
                active_area_effects: mid.active_area_effects,
                active_projectiles: mid.active_projectiles,
                pending_hits: mid.pending_hits,
                ..*before
            })
            &&& mid.active_area_effects@ == tick_all(before.active_area_effects@)
            &&& mid.active_projectiles@ == projectiles_after_tick(before.active_projectiles@)
            &&& mid.pending_hits@ == pending_after_tick(before.pending_hits@)
            &&& hits_applied(&before.entities, &mid.entities, fired, fired.len() as int)
            &&& lines(mid.log@) == lines(before.log@) + hit_messages(fired)
            &&& if kills_any(&before.entities, fired, fired.len() as int) && state is Some {
                combat_finished(&mid, after, state->0@)
            } else {
                *after == mid
            }
        }
}

impl<H: ContentRuntimeHooks> Game<H> {
    /// Advances area effects and projectiles, counts pending hits down, lands those that
    /// fire this tick, and ends the encounter `state` when one of them removed its target.
    pub fn tick_effects(&mut self, state: Option<&CombatState>)
        requires
            old(self).wf(),
        ensures
            final(self).wf(),
            effects_ticked(
                old(self),
                final(self),
                match state {
                    Some(s) => Some(*s),
                    None => None,
                },
            ),
    {
        let ghost g0 = *self;
        tick_area_effects(&mut self.active_area_effects);
        tick_projectiles(&mut self.active_projectiles);
        let mut kept: Vec<PendingHit> = Vec::new();
        let mut fired: Vec<PendingHit> = Vec::new();
        let mut i: usize = 0;
        while i < self.pending_hits.len()
            invariant
                i <= self.pending_hits@.len(),
                self.pending_hits@ == g0.pending_hits@,
                kept@ == pending_after_tick(self.pending_hits@.take(i as int)),
                fired@ == fired_this_tick(self.pending_hits@.take(i as int)),
            decreases self.pending_hits@.len() - i,
        {
            let h = &self.pending_hits[i];
            assert(self.pending_hits@.take(i + 1).drop_last() =~= self.pending_hits@.take(i as int));
            if h.delay_ticks != 0 {
                let d = h.delay_ticks - 1;
                let copy = PendingHit {
                    target: h.target,
                    damage: h.damage,
                    lethal: h.lethal,
                    resolved_message: h.resolved_message.clone(),
                    delay_ticks: d,
                    hit: h.hit,
                };
                if d == 0 {
                    fired.push(copy);
                } else {
                    kept.push(copy);
                }
            }
            i = i + 1;
        }
        assert(self.pending_hits@.take(self.pending_hits@.len() as int) =~= self.pending_hits@);
        self.pending_hits = kept;
        let ghost g1 = *self;
        let mut end_combat = false;
        let mut k: usize = 0;
        while k < fired.len()
            invariant
                k <= fired@.len(),
                fired@ == fired_this_tick(g0.pending_hits@),
                self.wf(),
                g1.wf(),
                *self == (Game { entities: self.entities, log: self.log, ..g1 }),
                hits_applied(&g0.entities, &self.entities, fired@, k as int),
                lines(self.log@) == lines(g0.log@) + hit_messages(fired@.take(k as int)),
                end_combat == kills_any(&g0.entities, fired@, k as int),
                g1.entities == g0.entities,
            decreases fired@.len() - k,
        {
            let ghost e_before = self.entities;
            let h = &fired[k];
            let msg = h.resolved_message.clone();
            proof { lemma_lines_push(self.log@, msg); }
            self.log.push(msg);
            proof {
                assert(hit_messages(fired@.take(k + 1)) =~= hit_messages(fired@.take(k as int)).push(fired@[k as int].resolved_message@));
            }
            if h.hit && h.damage > 0 {
                match self.entities.stats(h.target) {
                    Some(st) => {
                        let hp = st.hp.saturating_sub(h.damage);
                        self.entities.set_stats(h.target, ActorStats { hp, ..st });
                        let ghost e_mid = self.entities;
                        if hp == 0 && h.lethal {
                            self.entities.despawn(h.target);
                            end_combat = true;
                        }
                        proof {
                            let j = h.target.0 as int;
                            assert forall|x: int| 0 <= x < e_before.len() && x != j implies #[trigger] self.entities.same_slot(
                                &e_before,
                                x,
                            ) by {
                                assert(e_mid.same_slot(&e_before, x));
                                if hp == 0 && h.lethal {
                                    assert(self.entities.same_slot(&e_mid, x));
                                }
                            }
                            assert forall|x: int| 0 <= x < self.entities.combat_stats@.len() implies #[trigger] self.entities.combat_stats@[x].speed
                                <= crate::combat::MAX_COMBAT_SPEED by {
                                if x != j {
                                    assert(self.entities.same_slot(&e_before, x));
                                }
                            }
                        }
                    },
                    None => {},
                }
            }
            proof { lemma_hit_step(&g0.entities, &e_before, &self.entities, fired@, k as int); }
            k = k + 1;
        }
        assert(fired@.take(fired@.len() as int) =~= fired@);
        let ghost mid = *self;
        if end_combat {
            match state {
                Some(cs) => {
                    finish_combat(self, cs);
                },
                None => {},
            }
        }
        assert(hits_applied(&g0.entities, &mid.entities, fired@, fired@.len() as int));
    }
}

/// Landing hit `k` extends the effect of the hits before it.
proof fn lemma_hit_step(a0: &EntityArena, a1: &EntityArena, a2: &EntityArena, hits: Seq<PendingHit>, k: int)
    requires
        0 <= k < hits.len(),
        a0.wf(),
        hits_applied(a0, a1, hits, k),
        a2.len() == a1.len(),
        a2.next_id == a1.next_id,
        a2.player == a1.player,
        ({
            let h = hits[k];
            let j = h.target.0 as int;
            &&& forall|x: int| 0 <= x < a1.len() && x != j ==> #[trigger] a2.same_slot(a1, x)
            &&& j < a1.len() ==> {
                let st = a1.combat_stats@[j];
                let f = hit_fold((st, false), h);
                &&& a2.combat_stats@[j] == f.0
                &&& if f.1 { cleared_but_stats(a2, j) } else { same_but_stats(a2, a1, j) }
            }
        }),
    ensures
        hits_applied(a0, a2, hits, k + 1),
{
    let h = hits[k];
    let j = h.target.0 as int;
    assert forall|x: int| 0 <= x < a0.len() implies {
        let f = #[trigger] fate_in(a0, hits, x, k + 1);
        &&& a2.combat_stats@[x] == f.0
        &&& if f.1 { cleared_but_stats(a2, x) } else { same_but_stats(a2, a0, x) }
    } by {
        let f0 = fate_in(a0, hits, x, k);
        if x != j {
            assert(a2.same_slot(a1, x));
        } else {
            assert(fate_in(a0, hits, x, k + 1) == hit_fold(f0, h));
        }
    }
}


/// The actor an attack animation starts from: the encounter's current actor (slot 0
/// outside an encounter or without one).
pub open spec fn attack_actor<H: ContentRuntimeHooks>(game: &Game<H>) -> EntityId {
    if in_combat(game.modes.stack@) {
        match game.modes.stack@.last()->Combat_0@.current_actor() {
            Some(a) => a,
            None => EntityId(0),
        }
    } else {
        EntityId(0)
    }
}

/// The animation of a hit landing after `delay` ticks, flying from `from` to `to`: an
/// arrow (flight time one tick per cell, at least the minimum, cells counted modulo 256)
/// when the delay exceeds the melee delay, else a flash at the target.
pub open spec fn attack_projectile(from: GridPos, to: GridPos, delay: u8) -> Projectile {
    if delay > MELEE_HIT_TICKS {
        let dist = (max_int(abs_int(to.x - from.x), abs_int(to.y - from.y)) % 256) as u8;
        let per = dist as int * PROJECTILE_TICKS_PER_CELL as int;
        let flight: u8 = if per > 255 { 255 } else { per as u8 };
        Projectile {
            from,
            to,
            ticks_elapsed: 0,
            total_ticks: if flight < PROJECTILE_MIN_TICKS { PROJECTILE_MIN_TICKS } else { flight },
            glyph: spec_arrow_glyph(from, to),
            color: Color { r: 230, g: 220, b: 160 },
            is_ranged: true,
        }
    } else {
        Projectile {
            from,
            to,
            ticks_elapsed: 0,
            total_ticks: MELEE_HIT_TICKS,
            glyph: '*',
            color: Color { r: 255, g: 200, b: 120 },
            is_ranged: false,
        }
    }
}

/// `after` is `before` with `hit` queued and its animation started: see
/// [`Game::spawn_attack_effect`].
pub open spec fn attack_spawned<H: ContentRuntimeHooks>(before: &Game<H>, after: &Game<H>, hit: PendingHit) -> bool {
    let from = match before.entities.spec_pos(attack_actor(before)) {
        Some(p) => p,
        None => GridPos { x: 0, y: 0 },
    };
    let to = match before.entities.spec_pos(hit.target) {
        Some(p) => p,
        None => from,
    };
    &&& after.active_projectiles@ == before.active_projectiles@.push(attack_projectile(from, to, hit.delay_ticks))
    &&& after.pending_hits@ == before.pending_hits@.push(hit)
    &&& *after == (Game { active_projectiles: after.active_projectiles, pending_hits: after.pending_hits, ..*before })
}

impl<H: ContentRuntimeHooks> Game<H> {
    /// Queues `hit` and the projectile or flash that animates it, from the current actor to
    /// the target (the origin, and the start cell, stand in for missing positions).
    pub fn spawn_attack_effect(&mut self, hit: PendingHit)
        ensures
            attack_spawned(old(self), final(self), hit),
    {
        let actor = match self.modes.current() {
            Some(GameMode::Combat(cs)) => match cs.current_actor() {
                Some(a) => a,
                None => EntityId(0),
            },
            _ => EntityId(0),
        };
        let from = match self.entities.pos(actor) {
            Some(p) => p,
            None => GridPos::default(),
        };
        let to = match self.entities.pos(hit.target) {
            Some(p) => p,
            None => from,
        };
        let p = if hit.delay_ticks > MELEE_HIT_TICKS {
            let dx: i64 = to.x as i64 - from.x as i64;
            let dy: i64 = to.y as i64 - from.y as i64;
            let ax: i64 = if dx < 0 { -dx } else { dx };
            let ay: i64 = if dy < 0 { -dy } else { dy };
            let m: i64 = if ax >= ay { ax } else { ay };
            let dist: u8 = (m % 256) as u8;
            assert(dist as u16 * PROJECTILE_TICKS_PER_CELL as u16 <= 255 * 255) by (nonlinear_arith)
                requires dist <= 255, PROJECTILE_TICKS_PER_CELL <= 255;
            let per: u16 = dist as u16 * PROJECTILE_TICKS_PER_CELL as u16;
            let flight: u8 = if per > 255 { 255 } else { per as u8 };
            let ticks: u8 = if flight < PROJECTILE_MIN_TICKS { PROJECTILE_MIN_TICKS } else { flight };
            Projectile {
                from,
                to,
                ticks_elapsed: 0,
                total_ticks: ticks,
                glyph: arrow_glyph(from, to),
                color: arrow_color(),
                is_ranged: true,
            }
        } else {
            Projectile {
                from,
                to,
                ticks_elapsed: 0,
                total_ticks: MELEE_HIT_TICKS,
                glyph: '*',
                color: melee_flash_color(),
                is_ranged: false,
            }
        };
        self.active_projectiles.push(p);
        self.pending_hits.push(hit);
    }
}


/// `after` is `before` with `message` (if any) logged.
pub open spec fn message_logged<H: ContentRuntimeHooks>(before: &Game<H>, after: &Game<H>, message: Option<String>) -> bool {
    &&& *after == (Game { log: after.log, ..*before })
    &&& lines(after.log@) == match message {
        Some(m) => lines(before.log@).push(m@),
        None => lines(before.log@),
    }
}

/// `after` is `before` with `hit` (if any) queued.
pub open spec fn hit_queued<H: ContentRuntimeHooks>(before: &Game<H>, after: &Game<H>, hit: Option<PendingHit>) -> bool {
    match hit {
        Some(h) => attack_spawned(before, after, h),
        None => *after == *before,
    }
}

/// `after` is `before` with the encounter `state` ended when `end` holds.
pub open spec fn maybe_finished<H: ContentRuntimeHooks>(before: &Game<H>, after: &Game<H>, state: CombatStateView, end: bool) -> bool {
    if end { combat_finished(before, after, state) } else { *after == *before }
}

pub open spec fn after_hit<H: ContentRuntimeHooks>(g2: &Game<H>, after: &Game<H>, state: CombatStateView, end: bool) -> bool {
    exists|g3: Game<H>| #[trigger] maybe_finished(g2, &g3, state, end) && fow_refreshed(&g3, after)
}

pub open spec fn after_message<H: ContentRuntimeHooks>(g1: &Game<H>, after: &Game<H>, state: CombatStateView, report: CombatActionReport) -> bool {
    exists|g2: Game<H>| #[trigger] hit_queued(g1, &g2, report.pending_hit) && after_hit(&g2, after, state, report.end_combat)
}

/// `after` is `before` once the outcome `report` of an action in the encounter `state`
/// was taken in: its message logged, its hit queued, the encounter ended when the report
/// says so, and the player's view refreshed.
pub open spec fn report_applied<H: ContentRuntimeHooks>(before: &Game<H>, after: &Game<H>, state: CombatStateView, report: CombatActionReport) -> bool {
    exists|g1: Game<H>| #[trigger] message_logged(before, &g1, report.message) && after_message(&g1, after, state, report)
}

impl<H: ContentRuntimeHooks> Game<H> {
    /// Takes in the outcome of an encounter action (see [`report_applied`]).
    pub fn apply_combat_report(&mut self, state: &CombatState, report: CombatActionReport)
        requires
            old(self).wf(),
        ensures
            final(self).wf(),
            report_applied(old(self), final(self), state@, report),
    {
        let ghost r0 = report;
        match report.message {
            Some(m) => {
                proof { lemma_lines_push(self.log@, m); }
                self.log.push(m);
            },
            None => {},
        }
        let ghost g1 = *self;
        match report.pending_hit {
            Some(h) => self.spawn_attack_effect(h),
            None => {},
        }
        let ghost g2 = *self;
        if report.end_combat {
            finish_combat(self, state);
        }
        let ghost g3 = *self;
        self.refresh_fow();
        assert(maybe_finished(&g2, &g3, state@, r0.end_combat));
        assert(hit_queued(&g1, &g2, r0.pending_hit));
        assert(message_logged(old(self), &g1, r0.message));
    }
}

} // verus!
