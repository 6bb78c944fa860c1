//! Turn-based combat core: initiative, the action-point economy, movement, melee and
//! ranged attacks.

use vstd::prelude::*;
use vstd::multiset::Multiset;

use crate::entity::{ActorStats, EntityArena, EntityId, GridPos, NpcBrainState};
use crate::item::{ItemStack, StackEquipped};
use crate::math::{abs_int, clamp_i32, lcg_next_u32, lcg_step, max_int, min_int, spec_chebyshev};
use crate::narrative::NarrativeState;
use crate::search::{first_match, lemma_first_match, lemma_first_match_is, lemma_first_match_none};
use crate::world::{projectile_sight_clear, spec_sight_clear, MapGrid};

verus! {

broadcast use vstd::seq_lib::group_to_multiset_ensures, vstd::multiset::group_multiset_axioms;

/// AP units per displayed action point.
pub const ACTION_UNIT: u16 = 10;
pub const MOVE_ORTHOGONAL_COST_UNITS: u16 = 10;
pub const MOVE_DIAGONAL_COST_UNITS: u16 = 14;
pub const ATTACK_COST_UNITS: u16 = 20;
/// Ticks per tile of travel for a flying arrow.
pub const PROJECTILE_TICKS_PER_CELL: u8 = 1;
/// Floor for ranged flight time so even close shots have a visible arc.
pub const PROJECTILE_MIN_TICKS: u8 = 4;
/// Duration of a melee hit flash in ticks.
pub const MELEE_HIT_TICKS: u8 = 6;
/// Highest speed whose turn allowance (`speed / 2` points of ten units) fits a `u16`.
pub const MAX_COMBAT_SPEED: u16 = 13107;

#[derive(Clone, Copy, Debug, PartialEq, Eq, Structural)]
pub enum CombatRuleset {
    Lethal,
    NonLethalSpar,
    NonLethalBrawl,
}

impl CombatRuleset {
    pub fn is_lethal(self) -> (b: bool)
        ensures
            b == (self == CombatRuleset::Lethal),
    {
        matches!(self, CombatRuleset::Lethal)
    }
}

#[derive(Clone, Copy, Debug, PartialEq, Eq, Structural)]
pub enum EncounterOutcomePolicy {
    /// No special outcome.
    Plain,
    /// Sparring with a trainer: everyone is healed when it ends.
    TrainingSpar { trainer: EntityId },
}

#[derive(Clone, Copy, Debug, PartialEq, Eq, Structural)]
pub struct EncounterProfile {
    pub ruleset: CombatRuleset,
    pub outcome_policy: EncounterOutcomePolicy,
}

/// Resolved weapon profile of an attack.
#[derive(Clone, Copy, Debug, PartialEq, Eq, Structural)]
pub enum AttackStyle {
    Unarmed,
    Melee { to_hit: i8, damage_bonus: i8 },
    Bow { to_hit: i8, damage_bonus: i8, range: u8 },
}

#[derive(Clone, Copy, Debug, PartialEq, Eq, Structural)]
pub enum CombatAction {
    Move { target: GridPos },
    Attack { target: EntityId, style: AttackStyle },
    Pass,
    Flee,
}

/// A resolved attack whose damage is applied once its animation completes.
#[derive(Clone, Debug)]
pub struct PendingHit {
    pub target: EntityId,
    /// Pre-rolled damage to apply (0 on a miss).
    pub damage: u16,
    /// Whether the encounter's ruleset is lethal.
    pub lethal: bool,
    /// Message logged at resolution time.
    pub resolved_message: String,
    /// Countdown in game ticks; damage applies when this reaches 0.
    pub delay_ticks: u8,
    /// Whether the attack landed.
    pub hit: bool,
}

#[derive(Clone, Debug)]
pub struct CombatActionReport {
    pub applied: bool,
    /// Set only for outcomes that end the encounter at once (deferred hits are checked by
    /// the caller after they resolve).
    pub end_combat: bool,
    /// Immediate log message (validation errors, flee).
    pub message: Option<String>,
    /// Present when an attack was committed.
    pub pending_hit: Option<PendingHit>,
}

#[derive(Clone, Debug)]
pub struct CombatState {
    pub initiative: Vec<EntityId>,
    pub turn_index: usize,
    /// Remaining AP units, one entry per initiative slot.
    pub ap_remaining: Vec<u16>,
    pub grid_w: u16,
    pub grid_h: u16,
    pub profile: EncounterProfile,
}

/// Mathematical content of a [`CombatState`].
pub struct CombatStateView {
    pub initiative: Seq<EntityId>,
    pub turn_index: int,
    pub ap_remaining: Seq<u16>,
    pub grid_w: u16,
    pub grid_h: u16,
    pub profile: EncounterProfile,
}

impl View for CombatState {
    type V = CombatStateView;

    open spec fn view(&self) -> CombatStateView {
        CombatStateView {
            initiative: self.initiative@,
            turn_index: self.turn_index as int,
            ap_remaining: self.ap_remaining@,
            grid_w: self.grid_w,
            grid_h: self.grid_h,
            profile: self.profile,
        }
    }
}

// ---------------------------------------------------------------------------------------
// Rules as mathematics
// ---------------------------------------------------------------------------------------

pub open spec fn spec_speed_modifier(speed: u16) -> int {
    speed as int / 2
}

pub open spec fn spec_ap_from_speed(speed: u16) -> int {
    max_int(speed as int / 2, 1)
}

pub open spec fn spec_strength_modifier(strength: u16) -> int {
    strength as int / 2
}

pub open spec fn spec_agility_modifier(agility: u16) -> int {
    agility as int / 2
}

pub open spec fn spec_armor_class(agility: u16) -> int {
    max_int(10 + spec_agility_modifier(agility), 1)
}

pub open spec fn spec_damage_on_hit(strength: u16) -> int {
    max_int(1 + spec_strength_modifier(strength), 1)
}

/// AP cost of a one-cell move (none unless the cells are distinct neighbours).
pub open spec fn spec_move_cost(from: GridPos, to: GridPos) -> Option<u16> {
    let dx = abs_int(to.x - from.x);
    let dy = abs_int(to.y - from.y);
    if dx == 0 && dy == 0 {
        None
    } else if dx > 1 || dy > 1 {
        None
    } else if dx == 1 && dy == 1 {
        Some(MOVE_DIAGONAL_COST_UNITS)
    } else {
        Some(MOVE_ORTHOGONAL_COST_UNITS)
    }
}

/// d20 roll drawn from the generator state `seed` (1..=20).
pub open spec fn spec_roll_d20(seed: u64) -> int {
    ((lcg_step(seed) >> 32u64) as u32) as int % 20 + 1
}

/// Generator state after `k` draws.
pub open spec fn seed_after(seed: u64, k: nat) -> u64
    decreases k,
{
    if k == 0 {
        seed
    } else {
        lcg_step(seed_after(seed, (k - 1) as nat))
    }
}

/// The actor is alive with positive HP.
pub open spec fn spec_can_act(arena: &EntityArena, id: EntityId) -> bool {
    arena.spec_is_alive(id) && match arena.spec_stats(id) {
        Some(s) => s.hp > 0,
        None => false,
    }
}

/// Every stored speed keeps a full turn allowance inside a `u16`.
pub open spec fn speeds_bounded(arena: &EntityArena) -> bool {
    forall|j: int|
        0 <= j < arena.combat_stats@.len() ==> #[trigger] arena.combat_stats@[j].speed
            <= MAX_COMBAT_SPEED
}

/// Speed used for initiative and AP (1 without stats).
pub open spec fn participant_speed(arena: &EntityArena, id: EntityId) -> u16 {
    match arena.spec_stats(id) {
        Some(s) => s.speed,
        None => 1,
    }
}

/// AP units granted at the start of `id`'s turn.
pub open spec fn spec_turn_ap_units(arena: &EntityArena, id: EntityId) -> int {
    match arena.spec_stats(id) {
        Some(s) => spec_ap_from_speed(s.speed) * ACTION_UNIT,
        None => ACTION_UNIT as int,
    }
}

/// `a` goes no later than `b` in the initiative order: higher total first, then higher
/// speed, then lower id.
pub open spec fn ranks_at_least(a: (EntityId, i32, i32), b: (EntityId, i32, i32)) -> bool {
    a.1 > b.1 || (a.1 == b.1 && (a.2 > b.2 || (a.2 == b.2 && a.0.0 <= b.0.0)))
}

pub open spec fn initiative_sorted(s: Seq<(EntityId, i32, i32)>) -> bool {
    forall|i: int, j: int| 0 <= i < j < s.len() ==> ranks_at_least(#[trigger] s[i], #[trigger] s[j])
}

/// Initiative entry `(id, d20 + speed / 2, speed)` of the `k`-th participant.
pub open spec fn ranked_entry(arena: &EntityArena, participants: Seq<EntityId>, seed: u64, k: int) -> (EntityId, i32, i32) {
    let id = participants[k];
    let sp = participant_speed(arena, id);
    (id, (spec_roll_d20(seed_after(seed, k as nat)) + spec_speed_modifier(sp)) as i32, sp as i32)
}

pub open spec fn ranked_entries(arena: &EntityArena, participants: Seq<EntityId>, seed: u64) -> Seq<(EntityId, i32, i32)> {
    Seq::new(participants.len(), |k: int| ranked_entry(arena, participants, seed, k))
}

impl CombatStateView {
    pub open spec fn current_actor(self) -> Option<EntityId> {
        if 0 <= self.turn_index < self.initiative.len() {
            Some(self.initiative[self.turn_index])
        } else {
            None
        }
    }

    pub open spec fn current_ap_units(self) -> Option<u16> {
        if 0 <= self.turn_index < self.ap_remaining.len() {
            Some(self.ap_remaining[self.turn_index])
        } else {
            None
        }
    }

    /// Offset `s + 1` of the next initiative slot (cyclically after the current one,
    /// the current one last) whose actor can act.
    pub open spec fn next_turn_offset(self, arena: &EntityArena) -> Option<int> {
        let len = self.initiative.len() as int;
        first_match(
            len,
            |s: int| spec_can_act(arena, self.initiative[(self.turn_index + s + 1) % len]),
        )
    }

    /// State after ending the current turn: the next actor able to act gets the turn and a
    /// full AP allowance; nothing changes when nobody can act.
    pub open spec fn end_turn(self, arena: &EntityArena) -> CombatStateView {
        let len = self.initiative.len() as int;
        if len == 0 {
            self
        } else {
            match self.next_turn_offset(arena) {
                Some(s) => {
                    let idx = (self.turn_index + s + 1) % len;
                    CombatStateView {
                        turn_index: idx,
                        ap_remaining: self.ap_remaining.update(
                            idx,
                            spec_turn_ap_units(arena, self.initiative[idx]) as u16,
                        ),
                        ..self
                    }
                },
                None => self,
            }
        }
    }

    /// Current actor's AP reduced by `cost` (saturating at zero).
    pub open spec fn consume(self, cost: u16) -> CombatStateView {
        if 0 <= self.turn_index < self.ap_remaining.len() {
            CombatStateView {
                ap_remaining: self.ap_remaining.update(
                    self.turn_index,
                    (if self.ap_remaining[self.turn_index] >= cost {
                        self.ap_remaining[self.turn_index] - cost
                    } else {
                        0
                    }) as u16,
                ),
                ..self
            }
        } else {
            self
        }
    }

    /// Ends the turn once the current actor cannot afford even an orthogonal step.
    pub open spec fn advance_if_needed(self, arena: &EntityArena) -> CombatStateView {
        match self.current_ap_units() {
            Some(u) => if u < MOVE_ORTHOGONAL_COST_UNITS {
                self.end_turn(arena)
            } else {
                self
            },
            None => self,
        }
    }

    /// Number of participants able to act among the first `n` initiative slots.
    pub open spec fn able_count(self, arena: &EntityArena, n: int) -> int
        decreases n,
    {
        if n <= 0 {
            0
        } else {
            self.able_count(arena, n - 1) + if spec_can_act(arena, self.initiative[n - 1]) {
                1int
            } else {
                0
            }
        }
    }

    /// The encounter is over when at most one participant can still act.
    pub open spec fn should_end_combat(self, arena: &EntityArena) -> bool {
        self.able_count(arena, self.initiative.len() as int) <= 1
    }
}

impl CombatState {
    /// One AP entry per participant.
    pub open spec fn wf(&self) -> bool {
        &&& self.ap_remaining@.len() == self.initiative@.len()
    }
}

// ---------------------------------------------------------------------------------------
// Executable rules
// ---------------------------------------------------------------------------------------

pub fn move_cost_units(from: GridPos, to: GridPos) -> (c: Option<u16>)
    ensures
        c == spec_move_cost(from, to),
{
    let dx: i64 = to.x as i64 - from.x as i64;
    let dy: i64 = to.y as i64 - from.y as i64;
    let dx: i64 = if dx < 0 { -dx } else { dx };
    let dy: i64 = if dy < 0 { -dy } else { dy };
    if dx == 0 && dy == 0 {
        return None;
    }
    if dx > 1 || dy > 1 {
        return None;
    }
    if dx == 1 && dy == 1 {
        return Some(MOVE_DIAGONAL_COST_UNITS);
    }
    Some(MOVE_ORTHOGONAL_COST_UNITS)
}

pub fn speed_modifier(speed: u16) -> (m: i16)
    ensures
        m == spec_speed_modifier(speed),
{
    (speed / 2) as i16
}

pub fn ap_from_speed(speed: u16) -> (ap: u16)
    ensures
        ap == spec_ap_from_speed(speed),
{
    let half = speed / 2;
    if half >= 1 { half } else { 1 }
}

pub fn strength_modifier(strength: u16) -> (m: i16)
    ensures
        m == spec_strength_modifier(strength),
{
    (strength / 2) as i16
}

pub fn agility_modifier(agility: u16) -> (m: i16)
    ensures
        m == spec_agility_modifier(agility),
{
    (agility / 2) as i16
}

pub fn armor_class(agility: u16) -> (ac: u16)
    ensures
        ac == spec_armor_class(agility),
{
    let v: i32 = 10 + agility_modifier(agility) as i32;
    if v >= 1 { v as u16 } else { 1 }
}

pub fn damage_on_hit(strength: u16) -> (d: u16)
    ensures
        d == spec_damage_on_hit(strength),
{
    let v: i32 = 1 + strength_modifier(strength) as i32;
    if v >= 1 { v as u16 } else { 1 }
}

/// Draws a d20 roll (1..=20) from `seed`.
pub fn roll_d20(seed: &mut u64) -> (r: u16)
    ensures
        r == spec_roll_d20(*old(seed)),
        *final(seed) == lcg_step(*old(seed)),
        1 <= r <= 20,
{
    let v = lcg_next_u32(seed);
    (v % 20 + 1) as u16
}

fn actor_can_act(arena: &EntityArena, id: EntityId) -> (b: bool)
    ensures
        b == spec_can_act(arena, id),
{
    arena.is_alive(id) && match arena.stats(id) {
        Some(s) => s.hp > 0,
        None => false,
    }
}

/// AP units granted at the start of `id`'s turn.
fn turn_ap_units(arena: &EntityArena, id: EntityId) -> (u: u16)
    requires
        speeds_bounded(arena),
    ensures
        u == spec_turn_ap_units(arena, id),
{
    match arena.stats(id) {
        Some(s) => {
            assert(s.speed <= MAX_COMBAT_SPEED);
            ap_from_speed(s.speed) * ACTION_UNIT
        },
        None => ACTION_UNIT,
    }
}

/// Chebyshev distance between two cells (saturated at `i32::MAX`).
pub fn chebyshev(a: GridPos, b: GridPos) -> (d: i32)
    ensures
        d == clamp_i32(spec_chebyshev(a, b)),
{
    crate::math::chebyshev(a, b)
}

/// Sorts initiative entries: the best-ranked entry still unplaced is moved to the output
/// each round.
fn sort_initiative(entries: Vec<(EntityId, i32, i32)>) -> (out: Vec<(EntityId, i32, i32)>)
    ensures
        initiative_sorted(out@),
        out@.to_multiset() == entries@.to_multiset(),
{
    let mut rem = entries;
    let mut out: Vec<(EntityId, i32, i32)> = Vec::new();
    while rem.len() > 0
        invariant
            initiative_sorted(out@),
            forall|i: int, k: int|
                0 <= i < out@.len() && 0 <= k < rem@.len() ==> ranks_at_least(
                    #[trigger] out@[i],
                    #[trigger] rem@[k],
                ),
            out@.to_multiset().add(rem@.to_multiset()) == entries@.to_multiset(),
        decreases rem@.len(),
    {
        let mut best: usize = 0;
        let mut k: usize = 1;
        while k < rem.len()
            invariant
                0 <= best < rem@.len(),
                1 <= k <= rem@.len(),
                forall|j: int| 0 <= j < k ==> ranks_at_least(rem@[best as int], #[trigger] rem@[j]),
            decreases rem@.len() - k,
        {
            let c = rem[k];
            let b = rem[best];
            let c_better = c.1 > b.1 || (c.1 == b.1 && (c.2 > b.2 || (c.2 == b.2 && c.0.0 < b.0.0)));
            if c_better {
                best = k;
            }
            k = k + 1;
        }
        let ghost old_rem = rem@;
        let ghost old_out = out@;
        let x = rem.remove(best);
        out.push(x);
        proof {
            assert forall|i: int, kk: int|
                0 <= i < out@.len() && 0 <= kk < rem@.len() implies ranks_at_least(
                #[trigger] out@[i],
                #[trigger] rem@[kk],
            ) by {
                let orig = if kk < best { kk } else { kk + 1 };
                assert(rem@[kk] == old_rem[orig]);
                if i < old_out.len() {
                    assert(out@[i] == old_out[i]);
                } else {
                    assert(out@[i] == x);
                }
            }
            assert forall|i: int, j: int| 0 <= i < j < out@.len() implies ranks_at_least(
                #[trigger] out@[i],
                #[trigger] out@[j],
            ) by {
                if j < old_out.len() {
                    assert(out@[i] == old_out[i]);
                    assert(out@[j] == old_out[j]);
                } else {
                    assert(out@[i] == old_out[i]);
                    assert(out@[j] == old_rem[best as int]);
                }
            }
            assert(old_rem.remove(best as int).to_multiset() == old_rem.to_multiset().remove(x));
            assert(old_out.push(x).to_multiset() == old_out.to_multiset().insert(x));
            assert(old_rem.to_multiset().count(x) > 0);
            assert(out@.to_multiset().add(rem@.to_multiset()) =~= entries@.to_multiset());
        }
    }
    assert(rem@.to_multiset() =~= Multiset::empty());
    out
}

/// `s` is an encounter rolled by [`CombatState::from_participants`] for `participants`
/// on a `w`×`h` grid from generator state `seed`.
pub open spec fn rolled_encounter(
    s: CombatState,
    arena: &EntityArena,
    participants: Seq<EntityId>,
    seed: u64,
    w: u16,
    h: u16,
    profile: EncounterProfile,
) -> bool {
    &&& s.wf()
    &&& s.turn_index == 0
    &&& s.grid_w == w
    &&& s.grid_h == h
    &&& s.profile == profile
    &&& exists|order: Seq<(EntityId, i32, i32)>|
        {
            &&& initiative_sorted(order)
            &&& order.to_multiset() == ranked_entries(arena, participants, seed).to_multiset()
            &&& s.initiative@ == order.map_values(|t: (EntityId, i32, i32)| t.0)
        }
    &&& forall|k: int|
        0 <= k < s.initiative@.len() ==> s.ap_remaining@[k] == spec_turn_ap_units(arena, #[trigger] s.initiative@[k])
}

/// What [`CombatState::apply_action`] does with `action` on `map` (movement blocked where
/// the map blocks it) and no narrative.
pub open spec fn map_action_outcome(
    s0: CombatStateView,
    s1: CombatStateView,
    a0: &EntityArena,
    a1: &EntityArena,
    seed0: u64,
    seed1: u64,
    map: &MapGrid,
    action: CombatAction,
    r: CombatActionReport,
) -> bool {
    &&& s1.ap_remaining.len() == s1.initiative.len()
    &&& a1.combat_stats@ == a0.combat_stats@
    &&& a1.alive@ == a0.alive@
    &&& match s0.current_actor() {
        None => {
            &&& rejected(r, true, "Combat has no active participants."@)
            &&& s1 == s0
            &&& a1.same_as(a0)
            &&& seed1 == seed0
        },
        Some(actor) => if !spec_can_act(a0, actor) {
            &&& s1 == s0.end_turn(a0)
            &&& rejected(r, s1.should_end_combat(a0), "Current actor cannot act."@)
            &&& a1.same_as(a0)
            &&& seed1 == seed0
        } else {
            match action {
                CombatAction::Move { target } => {
                    &&& move_outcome(
                        s0,
                        s1,
                        a0,
                        a1,
                        actor,
                        target,
                        map.spec_blocks_movement(target.x as int, target.y as int),
                        r,
                    )
                    &&& seed1 == seed0
                },
                CombatAction::Attack { target, style } => attack_outcome(
                    s0,
                    s1,
                    a0,
                    a1,
                    seed0,
                    seed1,
                    Some(map),
                    None,
                    None,
                    actor,
                    target,
                    style,
                    r,
                ),
                CombatAction::Pass => {
                    &&& s1 == s0.end_turn(a0)
                    &&& r.applied
                    &&& r.end_combat == s1.should_end_combat(a0)
                    &&& r.message is None
                    &&& r.pending_hit is None
                    &&& a1.same_as(a0)
                    &&& seed1 == seed0
                },
                CombatAction::Flee => {
                    &&& r.applied
                    &&& r.end_combat
                    &&& r.message matches Some(m) && m@ == "Flee attempt ends combat."@
                    &&& r.pending_hit is None
                    &&& s1 == s0
                    &&& a1.same_as(a0)
                    &&& seed1 == seed0
                },
            }
        },
    }
}

/// What [`CombatState::apply_action`] does with an attack on `target` in `style`, on
/// `map`, with the attacker's narrative `n0` (becoming `n1`) when there is one.
pub open spec fn attack_action_outcome(
    s0: CombatStateView,
    s1: CombatStateView,
    a0: &EntityArena,
    a1: &EntityArena,
    seed0: u64,
    seed1: u64,
    map: &MapGrid,
    n0: Option<NarrativeState>,
    n1: Option<NarrativeState>,
    target: EntityId,
    style: AttackStyle,
    r: CombatActionReport,
) -> bool {
    &&& s1.ap_remaining.len() == s1.initiative.len()
    &&& a1.combat_stats@ == a0.combat_stats@
    &&& a1.alive@ == a0.alive@
    &&& match s0.current_actor() {
        None => {
            &&& rejected(r, true, "Combat has no active participants."@)
            &&& s1 == s0
            &&& a1.same_as(a0)
            &&& seed1 == seed0
            &&& n1 == n0
        },
        Some(actor) => if !spec_can_act(a0, actor) {
            &&& s1 == s0.end_turn(a0)
            &&& rejected(r, s1.should_end_combat(a0), "Current actor cannot act."@)
            &&& a1.same_as(a0)
            &&& seed1 == seed0
            &&& n1 == n0
        } else {
            attack_outcome(s0, s1, a0, a1, seed0, seed1, Some(map), n0, n1, actor, target, style, r)
        },
    }
}

impl CombatState {
    /// Rolls initiative for `participants` (one d20 each, in order, plus half the speed),
    /// orders them by total, then speed, then id, and gives every participant a full AP
    /// allowance. The first in order has the turn.
    pub fn from_participants(
        participants: Vec<EntityId>,
        arena: &EntityArena,
        w: u16,
        h: u16,
        rng_seed: &mut u64,
        profile: EncounterProfile,
    ) -> (s: CombatState)
        requires
            speeds_bounded(arena),
        ensures
            s.wf(),
            s.turn_index == 0,
            s.grid_w == w,
            s.grid_h == h,
            s.profile == profile,
            *final(rng_seed) == seed_after(*old(rng_seed), participants@.len()),
            rolled_encounter(s, arena, participants@, *old(rng_seed), w, h, profile),
            exists|order: Seq<(EntityId, i32, i32)>|
                {
                    &&& initiative_sorted(order)
                    &&& order.to_multiset() == ranked_entries(arena, participants@, *old(rng_seed)).to_multiset()
                    &&& s.initiative@ == order.map_values(|t: (EntityId, i32, i32)| t.0)
                },
            forall|k: int|
                0 <= k < s.initiative@.len() ==> s.ap_remaining@[k] == spec_turn_ap_units(
                    arena,
                    #[trigger] s.initiative@[k],
                ),
    {
        let ghost seed0 = *rng_seed;
        let mut ranked: Vec<(EntityId, i32, i32)> = Vec::new();
        let mut i: usize = 0;
        while i < participants.len()
            invariant
                i <= participants@.len(),
                ranked@ == ranked_entries(arena, participants@, seed0).take(i as int),
                *rng_seed == seed_after(seed0, i as nat),
            decreases participants@.len() - i,
        {
            let id = participants[i];
            let speed: u16 = match arena.stats(id) {
                Some(st) => st.speed,
                None => 1,
            };
            let roll = roll_d20(rng_seed) as i32;
            let total: i32 = roll + speed_modifier(speed) as i32;
            ranked.push((id, total, speed as i32));
            assert(ranked@ =~= ranked_entries(arena, participants@, seed0).take(i + 1));
            i = i + 1;
        }
        assert(ranked@ =~= ranked_entries(arena, participants@, seed0));
        let sorted = sort_initiative(ranked);
        let mut initiative: Vec<EntityId> = Vec::new();
        let mut ap_remaining: Vec<u16> = Vec::new();
        let mut k: usize = 0;
        proof {
            vstd::seq_lib::to_multiset_len(sorted@);
            vstd::seq_lib::to_multiset_len(ranked_entries(arena, participants@, seed0));
        }
        while k < sorted.len()
            invariant
                k <= sorted@.len(),
                initiative@ == sorted@.take(k as int).map_values(|t: (EntityId, i32, i32)| t.0),
                ap_remaining@.len() == k,
                forall|j: int|
                    0 <= j < k ==> ap_remaining@[j] == spec_turn_ap_units(
                        arena,
                        #[trigger] initiative@[j],
                    ),
                speeds_bounded(arena),
            decreases sorted@.len() - k,
        {
            let id = sorted[k].0;
            initiative.push(id);
            ap_remaining.push(turn_ap_units(arena, id));
            assert(initiative@ =~= sorted@.take(k + 1).map_values(|t: (EntityId, i32, i32)| t.0));
            k = k + 1;
        }
        assert(sorted@.take(sorted@.len() as int) =~= sorted@);
        CombatState { initiative, turn_index: 0, ap_remaining, grid_w: w, grid_h: h, profile }
    }

    /// An independent copy with the same contents.
    pub fn duplicate(&self) -> (s: CombatState)
        ensures
            s@ == self@,
    {
        let mut initiative: Vec<EntityId> = Vec::new();
        let mut ap_remaining: Vec<u16> = Vec::new();
        let mut i: usize = 0;
        while i < self.initiative.len()
            invariant
                i <= self.initiative@.len(),
                initiative@ == self.initiative@.take(i as int),
            decreases self.initiative@.len() - i,
        {
            initiative.push(self.initiative[i]);
            assert(initiative@ =~= self.initiative@.take(i + 1));
            i = i + 1;
        }
        let mut k: usize = 0;
        while k < self.ap_remaining.len()
            invariant
                k <= self.ap_remaining@.len(),
                ap_remaining@ == self.ap_remaining@.take(k as int),
            decreases self.ap_remaining@.len() - k,
        {
            ap_remaining.push(self.ap_remaining[k]);
            assert(ap_remaining@ =~= self.ap_remaining@.take(k + 1));
            k = k + 1;
        }
        assert(initiative@ =~= self.initiative@);
        assert(ap_remaining@ =~= self.ap_remaining@);
        CombatState {
            initiative,
            turn_index: self.turn_index,
            ap_remaining,
            grid_w: self.grid_w,
            grid_h: self.grid_h,
            profile: self.profile,
        }
    }

    pub fn current_actor(&self) -> (a: Option<EntityId>)
        ensures
            a == self@.current_actor(),
    {
        if self.turn_index < self.initiative.len() {
            Some(self.initiative[self.turn_index])
        } else {
            None
        }
    }

    pub fn contains_actor(&self, id: EntityId) -> (b: bool)
        ensures
            b == self.initiative@.contains(id),
    {
        let mut i: usize = 0;
        while i < self.initiative.len()
            invariant
                i <= self.initiative@.len(),
                forall|j: int| 0 <= j < i ==> self.initiative@[j] != id,
            decreases self.initiative@.len() - i,
        {
            if self.initiative[i].0 == id.0 {
                assert(self.initiative@[i as int] == id);
                return true;
            }
            i = i + 1;
        }
        false
    }

    /// Remaining whole action points of the current actor.
    pub fn current_ap(&self) -> (ap: Option<u16>)
        ensures
            ap == (match self@.current_ap_units() {
                Some(u) => Some((u / ACTION_UNIT) as u16),
                None => None,
            }),
    {
        if self.turn_index < self.ap_remaining.len() {
            Some(self.ap_remaining[self.turn_index] / ACTION_UNIT)
        } else {
            None
        }
    }

    /// Remaining AP units of the current actor.
    pub fn current_ap_units(&self) -> (u: Option<u16>)
        ensures
            u == self@.current_ap_units(),
    {
        if self.turn_index < self.ap_remaining.len() {
            Some(self.ap_remaining[self.turn_index])
        } else {
            None
        }
    }

    /// Passes the turn to the next participant (cyclically) that can act and refills its AP.
    pub fn end_turn(&mut self, arena: &EntityArena)
        requires
            old(self).wf(),
            speeds_bounded(arena),
        ensures
            final(self).wf(),
            final(self)@ == old(self)@.end_turn(arena),
    {
        if self.initiative.len() == 0 {
            return;
        }
        let len = self.initiative.len();
        let ghost v = self@;
        assert(v == old(self)@);
        let ghost p = |s: int| spec_can_act(arena, v.initiative[(v.turn_index + s + 1) % (len as int)]);
        let mut s: usize = 0;
        let mut found: Option<usize> = None;
        while s < len && found.is_none()
            invariant
                s <= len,
                len == self.initiative@.len(),
                len > 0,
                self@ == v,
                self.wf(),
                speeds_bounded(arena),
                p == (|s: int| spec_can_act(arena, v.initiative[(v.turn_index + s + 1) % (len as int)])),
                found is None ==> forall|j: int| 0 <= j < s ==> !#[trigger] p(j),
                found matches Some(fs) ==> fs < len && v.next_turn_offset(arena) == Some(
                    fs as int,
                ),
            decreases len - s + (if found is None { 1int } else { 0int }),
        {
            let idx: usize = ((self.turn_index as u128 + s as u128 + 1) % (len as u128)) as usize;
            let id = self.initiative[idx];
            if actor_can_act(arena, id) {
                proof { lemma_first_match_is(len as int, p, s as int); }
                found = Some(s);
            } else {
                s = s + 1;
            }
        }
        match found {
            Some(fs) => {
                let idx: usize = ((self.turn_index as u128 + fs as u128 + 1) % (len as u128)) as usize;
                let id = self.initiative[idx];
                let ap = turn_ap_units(arena, id);
                self.turn_index = idx;
                self.ap_remaining.set(idx, ap);
                proof {
                    let e = v.end_turn(arena);
                    assert(self@.ap_remaining =~= e.ap_remaining);
                    assert(self@.initiative =~= e.initiative);
                }
            },
            None => {
                proof {
                    lemma_first_match_none(len as int, p);
                }
            },
        }
    }

    fn consume_current_ap_units(&mut self, cost: u16)
        requires
            old(self).wf(),
        ensures
            final(self).wf(),
            final(self)@ == old(self)@.consume(cost),
    {
        if self.turn_index < self.ap_remaining.len() {
            let cur = self.ap_remaining[self.turn_index];
            self.ap_remaining.set(self.turn_index, cur.saturating_sub(cost));
        }
    }

    fn advance_turn_if_needed(&mut self, arena: &EntityArena)
        requires
            old(self).wf(),
            speeds_bounded(arena),
        ensures
            final(self).wf(),
            final(self)@ == old(self)@.advance_if_needed(arena),
    {
        match self.current_ap_units() {
            Some(units) => {
                if units < MOVE_ORTHOGONAL_COST_UNITS {
                    self.end_turn(arena);
                }
            },
            None => {},
        }
    }

    fn should_end_combat(&self, arena: &EntityArena) -> (b: bool)
        ensures
            b == self@.should_end_combat(arena),
    {
        let mut count: usize = 0;
        let mut i: usize = 0;
        while i < self.initiative.len()
            invariant
                i <= self.initiative@.len(),
                count == self@.able_count(arena, i as int),
                count <= i,
            decreases self.initiative@.len() - i,
        {
            if actor_can_act(arena, self.initiative[i]) {
                count = count + 1;
            }
            i = i + 1;
        }
        count <= 1
    }
}

} // verus!

verus! {

// ---------------------------------------------------------------------------------------
// Actions
// ---------------------------------------------------------------------------------------

/// A report for an action that was not carried out.
pub open spec fn rejected(r: CombatActionReport, end: bool, m: Seq<char>) -> bool {
    &&& !r.applied
    &&& r.end_combat == end
    &&& r.message matches Some(x) && x@ == m
    &&& r.pending_hit is None
}

pub open spec fn style_to_hit(style: AttackStyle) -> int {
    match style {
        AttackStyle::Unarmed => 0,
        AttackStyle::Melee { to_hit, .. } => to_hit as int,
        AttackStyle::Bow { to_hit, .. } => to_hit as int,
    }
}

pub open spec fn style_damage_bonus(style: AttackStyle) -> int {
    match style {
        AttackStyle::Unarmed => 0,
        AttackStyle::Melee { damage_bonus, .. } => damage_bonus as int,
        AttackStyle::Bow { damage_bonus, .. } => damage_bonus as int,
    }
}

/// Unarmed and melee attacks reach adjacent cells; a bow reaches `1..=range`.
pub open spec fn spec_in_weapon_range(style: AttackStyle, dist: int) -> bool {
    match style {
        AttackStyle::Bow { range, .. } => 1 <= dist <= range,
        _ => dist == 1,
    }
}

/// Damage of a landed attack: strength bonus plus weapon bonus, at least 1.
pub open spec fn spec_attack_damage(attacker: ActorStats, style: AttackStyle) -> int {
    max_int(spec_damage_on_hit(attacker.strength) + style_damage_bonus(style), 1)
}

/// Whether an attack rolled from `seed` lands against `target`'s armor class.
pub open spec fn spec_attack_hits(seed: u64, attacker: ActorStats, target: ActorStats, style: AttackStyle) -> bool {
    spec_roll_d20(seed) + spec_strength_modifier(attacker.strength) + style_to_hit(style)
        >= spec_armor_class(target.agility)
}

/// Animation delay: ranged shots fly one tick per cell (at least the minimum), melee
/// flashes for a fixed time.
pub open spec fn spec_hit_delay(style: AttackStyle, dist: int) -> int {
    if style is Bow {
        max_int(
            PROJECTILE_MIN_TICKS as int,
            min_int(min_int(dist, 255) * PROJECTILE_TICKS_PER_CELL, 255),
        )
    } else {
        MELEE_HIT_TICKS as int
    }
}

pub open spec fn attack_verb(style: AttackStyle) -> Seq<char> {
    if style is Bow { "Shot"@ } else { "Attack"@ }
}

/// Log line of a resolved attack.
pub open spec fn spec_hit_message(style: AttackStyle, hit: bool, damage: int, surviving: int, lethal: bool) -> Seq<char> {
    if !hit {
        attack_verb(style) + " misses."@
    } else if surviving == 0 && lethal {
        attack_verb(style) + " defeats the target."@
    } else {
        attack_verb(style) + " hits for "@ + crate::text::spec_decimal(damage as nat)
            + " damage ("@ + crate::text::spec_decimal(surviving as nat) + " HP left)."@
    }
}

/// Slot of the first quiver stack of arrows that still holds some.
pub open spec fn first_loaded_arrow_stack(stacks: Seq<ItemStack>) -> Option<int> {
    first_match(
        stacks.len() as int,
        |j: int| stacks[j].id@ == "arrow"@ && stacks[j].equipped == Some(StackEquipped::Quiver)
            && stacks[j].count > 0,
    )
}

/// Stacks after one arrow is taken from the first loaded quiver stack (an emptied stack
/// is removed).
pub open spec fn spec_consume_one_arrow(stacks: Seq<ItemStack>) -> Seq<ItemStack> {
    match first_loaded_arrow_stack(stacks) {
        Some(i) => if stacks[i].count == 1 {
            stacks.remove(i)
        } else {
            stacks.update(i, ItemStack { count: (stacks[i].count - 1) as u32, ..stacks[i] })
        },
        None => stacks,
    }
}

fn consume_one_arrow(n: &mut NarrativeState)
    ensures
        final(n).inventory.stacks@ == spec_consume_one_arrow(old(n).inventory.stacks@),
        final(n).quests == old(n).quests,
        final(n).quest_stages == old(n).quest_stages,
        final(n).quest_journal == old(n).quest_journal,
        final(n).container_inventories == old(n).container_inventories,
{
    let ghost st = n.inventory.stacks@;
    let ghost p = |j: int| st[j].id@ == "arrow"@ && st[j].equipped == Some(StackEquipped::Quiver) && st[j].count > 0;
    let mut i: usize = 0;
    let mut found: Option<usize> = None;
    while i < n.inventory.stacks.len() && found.is_none()
        invariant
            i <= st.len(),
            n.inventory.stacks@ == st,
            *n == *old(n),
            st == old(n).inventory.stacks@,
            p == (|j: int| st[j].id@ == "arrow"@ && st[j].equipped == Some(StackEquipped::Quiver) && st[j].count > 0),
            found is None ==> forall|j: int| 0 <= j < i ==> !#[trigger] p(j),
            found matches Some(f) ==> f < st.len() && first_loaded_arrow_stack(st) == Some(f as int),
        decreases st.len() - i + (if found is None { 1int } else { 0int }),
    {
        let s = &n.inventory.stacks[i];
        if crate::text::str_eq(s.id.as_str(), "arrow") && matches!(s.equipped, Some(StackEquipped::Quiver)) && s.count > 0 {
            proof { lemma_first_match_is(st.len() as int, p, i as int); }
            found = Some(i);
        } else {
            i = i + 1;
        }
    }
    match found {
        Some(f) => {
            proof { crate::search::lemma_first_match(st.len() as int, p); }
            let c = n.inventory.stacks[f].count;
            if c == 1 {
                let _ = n.inventory.stacks.remove(f);
            } else {
                n.inventory.stacks[f].count = c - 1;
                assert(n.inventory.stacks@ =~= st.update(f as int, ItemStack { count: (st[f as int].count - 1) as u32, ..st[f as int] }));
            }
        },
        None => {
            proof { lemma_first_match_none(st.len() as int, p); }
        },
    }
}

fn text(s: &str) -> (r: String)
    ensures
        r@ == s@,
{
    String::from_str(s)
}

fn reject(end: bool, m: &str) -> (r: CombatActionReport)
    ensures
        rejected(r, end, m@),
{
    CombatActionReport { applied: false, end_combat: end, message: Some(text(m)), pending_hit: None }
}

fn attack_message(style: AttackStyle, hit: bool, damage: u16, surviving: u16, lethal: bool) -> (m: String)
    ensures
        m@ == spec_hit_message(style, hit, damage as int, surviving as int, lethal),
{
    let verb = if matches!(style, AttackStyle::Bow { .. }) { text("Shot") } else { text("Attack") };
    if !hit {
        verb.concat(" misses.")
    } else if surviving == 0 && lethal {
        verb.concat(" defeats the target.")
    } else {
        let d = crate::text::decimal(damage as u64);
        let h = crate::text::decimal(surviving as u64);
        verb.concat(" hits for ").concat(d.as_str()).concat(" damage (").concat(h.as_str()).concat(
            " HP left).",
        )
    }
}

/// Outcome of a move by `actor` to `target` when the map reports `blocked` there.
pub open spec fn move_outcome(
    s0: CombatStateView,
    s1: CombatStateView,
    a0: &EntityArena,
    a1: &EntityArena,
    actor: EntityId,
    target: GridPos,
    blocked: bool,
    r: CombatActionReport,
) -> bool {
    match a0.spec_pos(actor) {
        None => rejected(r, false, "Actor has no position."@) && s1 == s0 && a1.same_as(a0),
        Some(from) => match spec_move_cost(from, target) {
            None => rejected(r, false, "Movement target must be adjacent."@) && s1 == s0 && a1.same_as(a0),
            Some(cost) => if (match s0.current_ap_units() { Some(u) => u, None => 0 }) < cost {
                rejected(r, false, "Not enough AP to move."@) && s1 == s0 && a1.same_as(a0)
            } else if target.x < 0 || target.y < 0 || target.x >= s0.grid_w || target.y >= s0.grid_h {
                rejected(r, false, "Movement target is out of bounds."@) && s1 == s0 && a1.same_as(a0)
            } else if !a0.spec_can_move_to(blocked, target, Some(actor)) {
                rejected(r, false, "Movement target is blocked."@) && s1 == s0 && a1.same_as(a0)
            } else {
                &&& a1.same_but_positions(a0)
                &&& a1.position@ == a0.position@.update(actor.0 as int, Some(target))
                &&& s1 == s0.consume(cost).advance_if_needed(a1)
                &&& r.applied
                &&& r.end_combat == s1.should_end_combat(a1)
                &&& r.message is None
                &&& r.pending_hit is None
            },
        },
    }
}

/// The target brain after being hit from `from`: it remembers that cell to look into,
/// and its active reaction is left as it was.
pub open spec fn alerted_brain(b: NpcBrainState, from: GridPos) -> NpcBrainState {
    NpcBrainState { investigation_goal: Some(from), ..b }
}

/// Outcome of an attack by `actor`, given whether the quiver holds an arrow.
pub open spec fn attack_core(
    s0: CombatStateView,
    s1: CombatStateView,
    a0: &EntityArena,
    a1: &EntityArena,
    seed0: u64,
    seed1: u64,
    map: Option<&MapGrid>,
    has_arrow: bool,
    actor: EntityId,
    target: EntityId,
    style: AttackStyle,
    r: CombatActionReport,
) -> bool {
    let unchanged = s1 == s0 && a1.same_as(a0) && seed1 == seed0;
    let ap = match s0.current_ap_units() {
        Some(u) => u,
        None => 0,
    };
    if ap < ATTACK_COST_UNITS {
        rejected(r, false, "Not enough AP to attack."@) && unchanged
    } else if target == actor || !s0.initiative.contains(target) || !spec_can_act(a0, target) {
        rejected(r, false, "Invalid combat target."@) && unchanged
    } else {
        match (a0.spec_pos(actor), a0.spec_pos(target)) {
            (None, _) => rejected(r, false, "Attacker has no position."@) && unchanged,
            (Some(_), None) => rejected(r, false, "Target has no position."@) && unchanged,
            (Some(ap0), Some(tp)) => {
                let dist = clamp_i32(spec_chebyshev(ap0, tp));
                if !spec_in_weapon_range(style, dist) {
                    rejected(r, false, "Target is out of weapon range."@) && unchanged
                } else if style is Bow && map is None {
                    rejected(r, false, "Ranged attacks require map context."@) && unchanged
                } else if style is Bow && !spec_sight_clear(map.unwrap(), ap0, tp) {
                    rejected(r, false, "Shot is blocked."@) && unchanged
                } else if style is Bow && !has_arrow {
                    rejected(r, false, "Bow needs arrows in the quiver (e on arrows in inventory)."@) && unchanged
                } else {
                    let att = a0.spec_stats(actor).unwrap();
                    let tgt = a0.spec_stats(target).unwrap();
                    let hit = spec_attack_hits(seed0, att, tgt, style);
                    let dmg = spec_attack_damage(att, style);
                    let surviving = if tgt.hp >= dmg { tgt.hp - dmg } else { 0 };
                    let lethal = s0.profile.ruleset == CombatRuleset::Lethal;
                    &&& seed1 == lcg_step(seed0)
                    &&& a1.same_but_brains(a0)
                    &&& a1.npc_brain@ == if hit {
                        a0.npc_brain@.update(target.0 as int, alerted_brain(a0.npc_brain@[target.0 as int], ap0))
                    } else {
                        a0.npc_brain@
                    }
                    &&& s1 == s0.consume(ATTACK_COST_UNITS).advance_if_needed(a1)
                    &&& r.applied
                    &&& !r.end_combat
                    &&& r.message is None
                    &&& r.pending_hit matches Some(h) && h.target == target && h.hit == hit
                        && h.damage == (if hit { dmg } else { 0 }) && h.lethal == lethal
                        && h.delay_ticks == spec_hit_delay(style, dist)
                        && h.resolved_message@ == spec_hit_message(style, hit, dmg, surviving, lethal)
                }
            },
        }
    }
}

/// The move gets as far as asking the map whether `target` is blocked.
pub open spec fn move_consults_map(s0: CombatStateView, a0: &EntityArena, actor: EntityId, target: GridPos) -> bool {
    match a0.spec_pos(actor) {
        None => false,
        Some(from) => match spec_move_cost(from, target) {
            None => false,
            Some(cost) => {
                &&& (match s0.current_ap_units() { Some(u) => u, None => 0 }) >= cost
                &&& 0 <= target.x < s0.grid_w
                &&& 0 <= target.y < s0.grid_h
            },
        },
    }
}

/// Outcome of an attack when the narrative state, if any, holds `n0` before and `n1`
/// after: a committed bow shot uses up one arrow.
pub open spec fn attack_outcome(
    s0: CombatStateView,
    s1: CombatStateView,
    a0: &EntityArena,
    a1: &EntityArena,
    seed0: u64,
    seed1: u64,
    map: Option<&MapGrid>,
    n0: Option<NarrativeState>,
    n1: Option<NarrativeState>,
    actor: EntityId,
    target: EntityId,
    style: AttackStyle,
    r: CombatActionReport,
) -> bool {
    let has_arrow = n0 matches Some(n) && crate::item::quiver_total(n.inventory.stacks@, "arrow"@) > 0;
    &&& attack_core(s0, s1, a0, a1, seed0, seed1, map, has_arrow, actor, target, style, r)
    &&& match (n0, n1) {
        (Some(a), Some(b)) => {
            &&& b.inventory.stacks@ == if r.applied && style is Bow {
                spec_consume_one_arrow(a.inventory.stacks@)
            } else {
                a.inventory.stacks@
            }
            &&& b.quests == a.quests
            &&& b.quest_stages == a.quest_stages
            &&& b.quest_journal == a.quest_journal
            &&& b.container_inventories == a.container_inventories
        },
        (None, None) => true,
        _ => false,
    }
}

impl CombatState {
    fn apply_move<F: Fn(i32, i32) -> bool>(
        &mut self,
        actor: EntityId,
        target: GridPos,
        map_blocks_move: F,
        arena: &mut EntityArena,
    ) -> (r: CombatActionReport)
        requires
            old(self).wf(),
            old(arena).wf(),
            speeds_bounded(old(arena)),
            forall|x: i32, y: i32|
                0 <= x < old(self).grid_w && 0 <= y < old(self).grid_h ==> #[trigger] map_blocks_move.requires((x, y)),
        ensures
            final(self).wf(),
            final(arena).wf(),
            exists|b: bool|
                #[trigger] move_outcome(old(self)@, final(self)@, old(arena), final(arena), actor, target, b, r)
                    && (move_consults_map(old(self)@, old(arena), actor, target) ==> map_blocks_move.ensures(
                    (target.x, target.y),
                    b,
                )),
    {
        let actor_pos = match arena.pos(actor) {
            Some(p) => p,
            None => {
                let r = reject(false, "Actor has no position.");
                assert(move_outcome(old(self)@, self@, old(arena), arena, actor, target, false, r));
                return r;
            },
        };
        let move_cost = match move_cost_units(actor_pos, target) {
            Some(c) => c,
            None => {
                let r = reject(false, "Movement target must be adjacent.");
                assert(move_outcome(old(self)@, self@, old(arena), arena, actor, target, false, r));
                return r;
            },
        };
        let ap = match self.current_ap_units() {
            Some(u) => u,
            None => 0,
        };
        if ap < move_cost {
            let r = reject(false, "Not enough AP to move.");
            assert(move_outcome(old(self)@, self@, old(arena), arena, actor, target, false, r));
            return r;
        }
        if target.x < 0 || target.y < 0 || target.x >= self.grid_w as i32 || target.y >= self.grid_h as i32 {
            let r = reject(false, "Movement target is out of bounds.");
            assert(move_outcome(old(self)@, self@, old(arena), arena, actor, target, false, r));
            return r;
        }
        let blocked = map_blocks_move(target.x, target.y);
        if !arena.can_move_to(blocked, target, Some(actor)) {
            let r = reject(false, "Movement target is blocked.");
            assert(move_outcome(old(self)@, self@, old(arena), arena, actor, target, blocked, r));
            return r;
        }
        let ghost a0 = *arena;
        arena.set_pos(actor, target);
        assert(actor.0 < a0.len()) by {
            assert(a0.spec_pos(actor) is Some);
        }
        self.consume_current_ap_units(move_cost);
        self.advance_turn_if_needed(arena);
        let end = self.should_end_combat(arena);
        let r = CombatActionReport { applied: true, end_combat: end, message: None, pending_hit: None };
        assert(move_outcome(old(self)@, self@, old(arena), arena, actor, target, blocked, r));
        r
    }

    fn apply_attack(
        &mut self,
        actor: EntityId,
        target: EntityId,
        style: AttackStyle,
        arena: &mut EntityArena,
        rng_seed: &mut u64,
        map: Option<&MapGrid>,
        has_arrow: bool,
    ) -> (r: CombatActionReport)
        requires
            old(self).wf(),
            old(arena).wf(),
            speeds_bounded(old(arena)),
            spec_can_act(old(arena), actor),
            map matches Some(m) ==> m.wf(),
        ensures
            final(self).wf(),
            final(arena).wf(),
            attack_core(
                old(self)@,
                final(self)@,
                old(arena),
                final(arena),
                *old(rng_seed),
                *final(rng_seed),
                map,
                has_arrow,
                actor,
                target,
                style,
                r,
            ),
    {
        let ap = match self.current_ap_units() {
            Some(u) => u,
            None => 0,
        };
        if ap < ATTACK_COST_UNITS {
            return reject(false, "Not enough AP to attack.");
        }
        if target.0 == actor.0 || !self.contains_actor(target) || !actor_can_act(arena, target) {
            return reject(false, "Invalid combat target.");
        }
        let attacker_pos = match arena.pos(actor) {
            Some(p) => p,
            None => { return reject(false, "Attacker has no position."); },
        };
        let target_pos = match arena.pos(target) {
            Some(p) => p,
            None => { return reject(false, "Target has no position."); },
        };
        let dist = chebyshev(attacker_pos, target_pos);
        let is_ranged = matches!(style, AttackStyle::Bow { .. });
        let range_ok = match style {
            AttackStyle::Bow { range, .. } => dist >= 1 && dist <= range as i32,
            _ => dist == 1,
        };
        if !range_ok {
            return reject(false, "Target is out of weapon range.");
        }
        if is_ranged {
            match map {
                None => { return reject(false, "Ranged attacks require map context."); },
                Some(m) => {
                    if !projectile_sight_clear(m, attacker_pos, target_pos) {
                        return reject(false, "Shot is blocked.");
                    }
                },
            }
            if !has_arrow {
                return reject(false, "Bow needs arrows in the quiver (e on arrows in inventory).");
            }
        }
        let attacker_stats = match arena.stats(actor) {
            Some(st) => st,
            None => { return reject(false, "Attacker stats missing."); },
        };
        let target_stats = match arena.stats(target) {
            Some(st) => st,
            None => { return reject(false, "Target stats missing."); },
        };
        let to_hit: i32 = match style {
            AttackStyle::Unarmed => 0,
            AttackStyle::Melee { to_hit, .. } => to_hit as i32,
            AttackStyle::Bow { to_hit, .. } => to_hit as i32,
        };
        let roll = roll_d20(rng_seed);
        let attack_roll: i32 = roll as i32 + strength_modifier(attacker_stats.strength) as i32 + to_hit;
        let ac: i32 = armor_class(target_stats.agility) as i32;
        let lethal = self.profile.ruleset.is_lethal();
        let hit = attack_roll >= ac;
        let (damage, resolved_message) = if hit {
            let bonus: i32 = match style {
                AttackStyle::Unarmed => 0,
                AttackStyle::Melee { damage_bonus, .. } => damage_bonus as i32,
                AttackStyle::Bow { damage_bonus, .. } => damage_bonus as i32,
            };
            let raw: i32 = damage_on_hit(attacker_stats.strength) as i32 + bonus;
            let dmg: u16 = if raw >= 1 { raw as u16 } else { 1 };
            let surviving: u16 = if target_stats.hp >= dmg { target_stats.hp - dmg } else { 0 };
            (dmg, attack_message(style, true, dmg, surviving, lethal))
        } else {
            (0u16, attack_message(style, false, 0, 0, lethal))
        };
        if hit {
            let i = target.0 as usize;
            if i < arena.npc_brain.len() {
                let mut b = arena.npc_brain[i];
                b.investigation_goal = Some(attacker_pos);
                arena.npc_brain.set(i, b);
            }
        }
        let delay_ticks: u8 = if is_ranged {
            let d8: u16 = if dist > 255 { 255 } else { dist as u16 };
            let prod: u32 = d8 as u32 * PROJECTILE_TICKS_PER_CELL as u32;
            let scaled: u8 = if prod > 255 { 255 } else { prod as u8 };
            if PROJECTILE_MIN_TICKS >= scaled { PROJECTILE_MIN_TICKS } else { scaled }
        } else {
            MELEE_HIT_TICKS
        };
        self.consume_current_ap_units(ATTACK_COST_UNITS);
        self.advance_turn_if_needed(arena);
        CombatActionReport {
            applied: true,
            end_combat: false,
            message: None,
            pending_hit: Some(
                PendingHit { target, damage, lethal, resolved_message, delay_ticks, hit },
            ),
        }
    }

    /// [`Self::apply_action`] on `map`, whose solid cells block movement, with no narrative.
    pub(crate) fn apply_map_action(
        &mut self,
        action: CombatAction,
        arena: &mut EntityArena,
        rng_seed: &mut u64,
        map: &MapGrid,
    ) -> (r: CombatActionReport)
        requires
            old(self).wf(),
            old(arena).wf(),
            speeds_bounded(old(arena)),
            map.wf(),
        ensures
            final(self).wf(),
            final(arena).wf(),
            speeds_bounded(final(arena)),
            map_action_outcome(old(self)@, final(self)@, old(arena), final(arena), *old(rng_seed), *final(rng_seed), map, action, r),
    {
        let blocks = |x: i32, y: i32| -> (b: bool)
            requires
                map.wf(),
            ensures
                b == map.spec_blocks_movement(x as int, y as int),
            { map.blocks_movement(x, y) };
        self.apply_action(action, arena, rng_seed, blocks, Some(map), None)
    }

    /// An attack through [`Self::apply_action`] on `map`.
    pub(crate) fn apply_attack_action(
        &mut self,
        target: EntityId,
        style: AttackStyle,
        arena: &mut EntityArena,
        rng_seed: &mut u64,
        map: &MapGrid,
        narrative: Option<&mut NarrativeState>,
    ) -> (r: CombatActionReport)
        requires
            old(self).wf(),
            old(arena).wf(),
            speeds_bounded(old(arena)),
            map.wf(),
        ensures
            final(self).wf(),
            final(arena).wf(),
            speeds_bounded(final(arena)),
            attack_action_outcome(
                old(self)@,
                final(self)@,
                old(arena),
                final(arena),
                *old(rng_seed),
                *final(rng_seed),
                map,
                match narrative {
                    Some(n) => Some(*n),
                    None => None,
                },
                match narrative {
                    Some(n) => Some(*final(n)),
                    None => None,
                },
                target,
                style,
                r,
            ),
    {
        let blocks = |x: i32, y: i32| -> (b: bool)
            requires
                map.wf(),
            ensures
                b == map.spec_blocks_movement(x as int, y as int),
            { map.blocks_movement(x, y) };
        self.apply_action(CombatAction::Attack { target, style }, arena, rng_seed, blocks, Some(map), narrative)
    }

    /// Applies one action of the current actor. Damage of an attack is rolled at once
    /// but left to the caller (`pending_hit`), which applies it after the animation.
    pub fn apply_action(
        &mut self,
        action: CombatAction,
        arena: &mut EntityArena,
        rng_seed: &mut u64,
        map_blocks_move: impl Fn(i32, i32) -> bool,
        map: Option<&MapGrid>,
        narrative: Option<&mut NarrativeState>,
    ) -> (r: CombatActionReport)
        requires
            old(self).wf(),
            old(arena).wf(),
            speeds_bounded(old(arena)),
            forall|x: i32, y: i32|
                0 <= x < old(self).grid_w && 0 <= y < old(self).grid_h ==> #[trigger] map_blocks_move.requires((x, y)),
            map matches Some(m) ==> m.wf(),
        ensures
            final(self).wf(),
            final(arena).wf(),
            speeds_bounded(final(arena)),
            final(arena).combat_stats@ == old(arena).combat_stats@,
            final(arena).alive@ == old(arena).alive@,
            match old(self)@.current_actor() {
                None => {
                    &&& rejected(r, true, "Combat has no active participants."@)
                    &&& final(self)@ == old(self)@
                    &&& final(arena).same_as(old(arena))
                    &&& *final(rng_seed) == *old(rng_seed)
                    &&& narrative matches Some(n) ==> *final(n) == *n
                },
                Some(actor) => if !spec_can_act(old(arena), actor) {
                    &&& final(self)@ == old(self)@.end_turn(old(arena))
                    &&& rejected(r, final(self)@.should_end_combat(old(arena)), "Current actor cannot act."@)
                    &&& final(arena).same_as(old(arena))
                    &&& *final(rng_seed) == *old(rng_seed)
                    &&& narrative matches Some(n) ==> *final(n) == *n
                } else {
                    match action {
                        CombatAction::Move { target } => {
                            &&& exists|b: bool|
                                #[trigger] move_outcome(old(self)@, final(self)@, old(arena), final(arena), actor, target, b, r)
                                    && (move_consults_map(old(self)@, old(arena), actor, target)
                                    ==> map_blocks_move.ensures((target.x, target.y), b))
                            &&& *final(rng_seed) == *old(rng_seed)
                            &&& narrative matches Some(n) ==> *final(n) == *n
                        },
                        CombatAction::Attack { target, style } => attack_outcome(
                            old(self)@,
                            final(self)@,
                            old(arena),
                            final(arena),
                            *old(rng_seed),
                            *final(rng_seed),
                            map,
                            match narrative {
                                Some(n) => Some(*n),
                                None => None,
                            },
                            match narrative {
                                Some(n) => Some(*final(n)),
                                None => None,
                            },
                            actor,
                            target,
                            style,
                            r,
                        ),
                        CombatAction::Pass => {
                            &&& final(self)@ == old(self)@.end_turn(old(arena))
                            &&& r.applied
                            &&& r.end_combat == final(self)@.should_end_combat(old(arena))
                            &&& r.message is None
                            &&& r.pending_hit is None
                            &&& final(arena).same_as(old(arena))
                            &&& *final(rng_seed) == *old(rng_seed)
                            &&& narrative matches Some(n) ==> *final(n) == *n
                        },
                        CombatAction::Flee => {
                            &&& r.applied
                            &&& r.end_combat
                            &&& r.message matches Some(m) && m@ == "Flee attempt ends combat."@
                            &&& r.pending_hit is None
                            &&& final(self)@ == old(self)@
                            &&& final(arena).same_as(old(arena))
                            &&& *final(rng_seed) == *old(rng_seed)
                            &&& narrative matches Some(n) ==> *final(n) == *n
                        },
                    }
                },
            },
    {
        let actor = match self.current_actor() {
            Some(a) => a,
            None => { return reject(true, "Combat has no active participants."); },
        };
        if !actor_can_act(arena, actor) {
            self.end_turn(arena);
            let end = self.should_end_combat(arena);
            return reject(end, "Current actor cannot act.");
        }
        match action {
            CombatAction::Move { target } => self.apply_move(actor, target, map_blocks_move, arena),
            CombatAction::Attack { target, style } => {
                match narrative {
                    Some(n) => {
                        proof { crate::item::lemma_quiver_total_nonneg(n.inventory.stacks@, "arrow"@); }
                        let has_arrow = n.quiver_count_for_ranged("arrow") > 0;
                        let r = self.apply_attack(actor, target, style, arena, rng_seed, map, has_arrow);
                        if r.applied && matches!(style, AttackStyle::Bow { .. }) {
                            consume_one_arrow(n);
                        }
                        r
                    },
                    None => self.apply_attack(actor, target, style, arena, rng_seed, map, false),
                }
            },
            CombatAction::Pass => {
                self.end_turn(arena);
                let end = self.should_end_combat(arena);
                CombatActionReport { applied: true, end_combat: end, message: None, pending_hit: None }
            },
            CombatAction::Flee => CombatActionReport {
                applied: true,
                end_combat: true,
                message: Some(text("Flee attempt ends combat.")),
                pending_hit: None,
            },
        }
    }
}

} // verus!
