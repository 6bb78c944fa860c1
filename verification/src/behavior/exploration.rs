//! Exploration routines of NPCs: idle, roam around home, patrol a loop of stops.

use vstd::prelude::*;

use crate::content::{NpcRoutineDef, PatrolStopDef};
use crate::entity::{EntityArena, EntityId, GridPos, NpcBrainState};
use crate::math::{chebyshev, lcg_step, random_inclusive};
use crate::world::MapGrid;
use super::ctx::BehaviorCtx;
use super::navigation::{shortest_first_step, nav_answer_ok};
use super::threat::cheb;

verus! {

/// What a routine wants this tick.
#[derive(Clone, Copy, Debug, PartialEq, Eq, Structural)]
pub enum ExplorationIntent {
    Idle,
    Step(GridPos),
}

/// Attempts at drawing a free roam target before giving up for this tick.
pub const ROAM_PICK_ATTEMPTS: u32 = 24;

/// The value `random_inclusive` draws in `lo..=hi` from `seed`.
pub open spec fn spec_random_value(seed: u64, lo: int, hi: int) -> int {
    lo + ((lcg_step(seed) >> 32u64) as u32) % ((hi - lo + 1) as u32)
}

/// A roam candidate around `home` (two draws) and the generator state after it.
#[verifier::opaque]
pub open spec fn roam_candidate(home: GridPos, r: int, seed: u64) -> (int, int, u64) {
    let s1 = lcg_step(seed);
    (home.x + spec_random_value(seed, -r, r), home.y + spec_random_value(s1, -r, r), lcg_step(s1))
}

/// `(cx, cy)` is a usable roam target: within `r` of home, on the map and free.
#[verifier::opaque]
pub open spec fn roam_cell_ok(map: &MapGrid, entities: &EntityArena, actor: EntityId, home: GridPos, r: int, cx: int, cy: int) -> bool {
    &&& i32::MIN <= cx <= i32::MAX
    &&& i32::MIN <= cy <= i32::MAX
    &&& cheb(home, GridPos { x: cx as i32, y: cy as i32 }) <= r
    &&& map.spec_in_bounds(cx, cy)
    &&& entities.spec_can_move_to(map.spec_blocks_movement(cx, cy), GridPos { x: cx as i32, y: cy as i32 }, Some(actor))
}

/// First usable candidate within `tries` draws, and the generator state afterwards.
pub open spec fn pick_roam_from(
    map: &MapGrid,
    entities: &EntityArena,
    actor: EntityId,
    home: GridPos,
    r: int,
    seed: u64,
    tries: nat,
) -> (Option<GridPos>, u64)
    decreases tries,
{
    if tries == 0 {
        (None, seed)
    } else {
        let c = roam_candidate(home, r, seed);
        if roam_cell_ok(map, entities, actor, home, r, c.0, c.1) {
            (Some(GridPos { x: c.0 as i32, y: c.1 as i32 }), c.2)
        } else {
            pick_roam_from(map, entities, actor, home, r, c.2, (tries - 1) as nat)
        }
    }
}

pub open spec fn spec_pick_roam_goal(
    map: &MapGrid,
    entities: &EntityArena,
    actor: EntityId,
    home: GridPos,
    radius: u16,
    seed: u64,
) -> (Option<GridPos>, u64) {
    if radius == 0 {
        (None, seed)
    } else {
        pick_roam_from(map, entities, actor, home, radius as int, seed, ROAM_PICK_ATTEMPTS as nat)
    }
}

/// A picked roam goal is a free cell within the radius of home.
pub proof fn lemma_roam_goal_within_radius(
    map: &MapGrid,
    entities: &EntityArena,
    actor: EntityId,
    home: GridPos,
    r: int,
    seed: u64,
    tries: nat,
)
    ensures
        pick_roam_from(map, entities, actor, home, r, seed, tries).0 matches Some(g) ==> roam_cell_ok(
            map,
            entities,
            actor,
            home,
            r,
            g.x as int,
            g.y as int,
        ),
    decreases tries,
{
    reveal(roam_cell_ok);
    if tries > 0 {
        let c = roam_candidate(home, r, seed);
        lemma_roam_goal_within_radius(map, entities, actor, home, r, c.2, (tries - 1) as nat);
    }
}

/// Draws one roam candidate and keeps it if usable.
fn roam_try(map: &MapGrid, entities: &EntityArena, actor: EntityId, home: GridPos, r: i32, seed: &mut u64) -> (found: Option<GridPos>)
    requires
        map.wf(),
        entities.wf(),
        0 < r <= u16::MAX,
    ensures
        *final(seed) == roam_candidate(home, r as int, *old(seed)).2,
        ({
            let c = roam_candidate(home, r as int, *old(seed));
            found == if roam_cell_ok(map, entities, actor, home, r as int, c.0, c.1) {
                Some(GridPos { x: c.0 as i32, y: c.1 as i32 })
            } else {
                None
            }
        }),
{
    reveal(roam_cell_ok);
    reveal(roam_candidate);
    let ghost s0 = *seed;
    let dx = random_inclusive(seed, -r, r);
    let dy = random_inclusive(seed, -r, r);
    assert(roam_candidate(home, r as int, s0) == (home.x + dx, home.y + dy, *seed));
    let cx: i64 = home.x as i64 + dx as i64;
    let cy: i64 = home.y as i64 + dy as i64;
    if cx >= i32::MIN as i64 && cx <= i32::MAX as i64 && cy >= i32::MIN as i64 && cy <= i32::MAX as i64 {
        let candidate = GridPos { x: cx as i32, y: cy as i32 };
        if chebyshev(home, candidate) <= r && map.in_bounds(candidate.x, candidate.y) {
            let blocked = map.blocks_movement(candidate.x, candidate.y);
            if entities.can_move_to(blocked, candidate, Some(actor)) {
                return Some(candidate);
            }
        }
    }
    None
}

fn pick_roam_goal(
    map: &MapGrid,
    entities: &EntityArena,
    state: &NpcBrainState,
    radius: u16,
    actor: EntityId,
    seed: &mut u64,
) -> (r: Option<GridPos>)
    requires
        map.wf(),
        entities.wf(),
    ensures
        (r, *final(seed)) == spec_pick_roam_goal(map, entities, actor, state.home, radius, *old(seed)),
{
    if radius == 0 {
        return None;
    }
    let r = radius as i32;
    let ghost seed0 = *seed;
    let mut t: u32 = 0;
    while t < ROAM_PICK_ATTEMPTS
        invariant
            t <= ROAM_PICK_ATTEMPTS,
            radius > 0,
            r == radius as int,
            map.wf(),
            entities.wf(),
            seed0 == *old(seed),
            spec_pick_roam_goal(map, entities, actor, state.home, radius, seed0) == pick_roam_from(
                map,
                entities,
                actor,
                state.home,
                r as int,
                *seed,
                (ROAM_PICK_ATTEMPTS - t) as nat,
            ),
        decreases ROAM_PICK_ATTEMPTS - t,
    {
        let ghost s0 = *seed;
        let ghost k = (ROAM_PICK_ATTEMPTS - t) as nat;
        let found = roam_try(map, entities, actor, state.home, r, seed);
        t = t + 1;
        if found.is_some() {
            assert(pick_roam_from(map, entities, actor, state.home, r as int, s0, k) == (found, *seed));
            return found;
        }
        assert(pick_roam_from(map, entities, actor, state.home, r as int, s0, k) == pick_roam_from(
            map,
            entities,
            actor,
            state.home,
            r as int,
            *seed,
            (ROAM_PICK_ATTEMPTS - t) as nat,
        ));
    }
    None
}

/// Counts down the post-flee settle; `true` while the actor still has to stay put.
fn consume_alarmed_settle(brain: &mut NpcBrainState) -> (b: bool)
    ensures
        b == (old(brain).alarmed_ticks > 0),
        *final(brain) == if b {
            NpcBrainState { alarmed_ticks: (old(brain).alarmed_ticks - 1) as u16, ..*old(brain) }
        } else {
            *old(brain)
        },
{
    if brain.alarmed_ticks == 0 {
        return false;
    }
    brain.alarmed_ticks = brain.alarmed_ticks - 1;
    true
}

/// The patrol stop the brain is heading for, relative to home (`None` when the cell is
/// not representable).
pub open spec fn spec_patrol_goal(state: NpcBrainState, stops: Seq<PatrolStopDef>) -> Option<GridPos> {
    let stop = stops[state.patrol_next_stop as int % stops.len() as int];
    let x = state.home.x + stop.dx;
    let y = state.home.y + stop.dy;
    if i32::MIN <= x <= i32::MAX && i32::MIN <= y <= i32::MAX {
        Some(GridPos { x: x as i32, y: y as i32 })
    } else {
        None
    }
}

fn patrol_goal(state: &NpcBrainState, stops: &Vec<PatrolStopDef>) -> (g: Option<GridPos>)
    requires
        stops@.len() > 0,
    ensures
        g == spec_patrol_goal(*state, stops@),
{
    let stop = stops[state.patrol_next_stop as usize % stops.len()];
    let x: i64 = state.home.x as i64 + stop.dx as i64;
    let y: i64 = state.home.y as i64 + stop.dy as i64;
    if x >= i32::MIN as i64 && x <= i32::MAX as i64 && y >= i32::MIN as i64 && y <= i32::MAX as i64 {
        Some(GridPos { x: x as i32, y: y as i32 })
    } else {
        None
    }
}

/// Roam, before navigating: the updated brain, the cell to head for (`None`: stay idle)
/// and the generator state.
pub open spec fn spec_roam_plan(
    map: &MapGrid,
    entities: &EntityArena,
    actor: EntityId,
    from: GridPos,
    radius: u16,
    wait: u16,
    brain: NpcBrainState,
    seed: u64,
) -> (NpcBrainState, Option<GridPos>, u64) {
    if brain.alarmed_ticks > 0 {
        (NpcBrainState { alarmed_ticks: (brain.alarmed_ticks - 1) as u16, ..brain }, None, seed)
    } else {
        let b1 = if cheb(from, brain.home) > radius as int {
            NpcBrainState { roam_goal: Some(brain.home), ..brain }
        } else {
            brain
        };
        let b2 = if b1.roam_goal == Some(from) {
            NpcBrainState { roam_goal: None, ..b1 }
        } else {
            b1
        };
        if b2.roam_goal is None {
            if b2.roam_wait_ticks < wait {
                (NpcBrainState { roam_wait_ticks: (b2.roam_wait_ticks + 1) as u16, ..b2 }, None, seed)
            } else {
                let p = spec_pick_roam_goal(map, entities, actor, b2.home, radius, seed);
                (NpcBrainState { roam_wait_ticks: 0, roam_goal: p.0, ..b2 }, p.0, p.1)
            }
        } else {
            (b2, b2.roam_goal, seed)
        }
    }
}

/// Patrol, before navigating: the updated brain and the cell to head for.
pub open spec fn spec_patrol_plan(from: GridPos, stops: Seq<PatrolStopDef>, brain: NpcBrainState) -> (NpcBrainState, Option<GridPos>) {
    if brain.alarmed_ticks > 0 {
        (NpcBrainState { alarmed_ticks: (brain.alarmed_ticks - 1) as u16, ..brain }, None)
    } else if stops.len() == 0 {
        (brain, None)
    } else {
        let goal = match spec_patrol_goal(brain, stops) {
            Some(g) => g,
            None => from,
        };
        if from == goal {
            let stop = stops[brain.patrol_next_stop as int % stops.len() as int];
            if brain.patrol_wait_ticks < stop.wait_ticks {
                (NpcBrainState { patrol_wait_ticks: (brain.patrol_wait_ticks + 1) as u16, ..brain }, None)
            } else {
                let b = NpcBrainState {
                    patrol_wait_ticks: 0,
                    patrol_next_stop: ((brain.patrol_next_stop + 1) % stops.len() as int) as u16,
                    ..brain
                };
                (b, Some(match spec_patrol_goal(b, stops) {
                    Some(g) => g,
                    None => from,
                }))
            }
        } else {
            (brain, Some(goal))
        }
    }
}

/// Any routine, before navigating.
pub open spec fn spec_routine_plan(
    map: &MapGrid,
    entities: &EntityArena,
    actor: EntityId,
    from: GridPos,
    routine: NpcRoutineDef,
    brain: NpcBrainState,
    seed: u64,
) -> (NpcBrainState, Option<GridPos>, u64) {
    match routine {
        NpcRoutineDef::Idle => (brain, None, seed),
        NpcRoutineDef::Roam { radius, wait_ticks } => spec_roam_plan(map, entities, actor, from, radius, wait_ticks, brain, seed),
        NpcRoutineDef::Patrol { stops } => {
            let p = spec_patrol_plan(from, stops@, brain);
            (p.0, p.1, seed)
        },
    }
}

/// Intent and brain once navigation toward the planned `goal` answered `nav`; a roamer
/// forgets its goal on the step that reaches it.
pub open spec fn spec_routine_finish(
    routine: NpcRoutineDef,
    brain: NpcBrainState,
    goal: Option<GridPos>,
    nav: Option<GridPos>,
) -> (ExplorationIntent, NpcBrainState) {
    match goal {
        None => (ExplorationIntent::Idle, brain),
        Some(g) => match nav {
            None => (ExplorationIntent::Idle, brain),
            Some(nx) => (
                ExplorationIntent::Step(nx),
                if routine is Roam && nx == g {
                    NpcBrainState { roam_goal: None, ..brain }
                } else {
                    brain
                },
            ),
        },
    }
}

/// The cell navigation heads for (`from` itself when the plan has none).
pub open spec fn plan_goal(goal: Option<GridPos>, from: GridPos) -> GridPos {
    match goal {
        Some(g) => g,
        None => from,
    }
}

/// Navigation toward the planned goal gave its answer (the first step of a shortest path,
/// or none), and the tick ends in `intent`, `brain2` and generator state `seed2` accordingly.
pub open spec fn plan_outcome(
    map: &MapGrid,
    entities: &EntityArena,
    actor: EntityId,
    from: GridPos,
    routine: NpcRoutineDef,
    plan: (NpcBrainState, Option<GridPos>, u64),
    intent: ExplorationIntent,
    brain2: NpcBrainState,
    seed2: u64,
) -> bool {
    &&& seed2 == plan.2
    &&& exists|nav: Option<GridPos>|
        #[trigger] nav_answer_ok(map, entities, actor, from, plan_goal(plan.1, from), nav)
            && spec_routine_finish(routine, plan.0, plan.1, nav) == (intent, brain2)
}

/// As [`plan_outcome`], with the navigation answer `nav` named.
pub open spec fn plan_outcome_with(
    map: &MapGrid,
    entities: &EntityArena,
    actor: EntityId,
    from: GridPos,
    routine: NpcRoutineDef,
    plan: (NpcBrainState, Option<GridPos>, u64),
    nav: Option<GridPos>,
    intent: ExplorationIntent,
    brain2: NpcBrainState,
    seed2: u64,
) -> bool {
    &&& seed2 == plan.2
    &&& nav_answer_ok(map, entities, actor, from, plan_goal(plan.1, from), nav)
    &&& spec_routine_finish(routine, plan.0, plan.1, nav) == (intent, brain2)
}

impl<'a> BehaviorCtx<'a> {
    /// A routine tick of `actor` at `from` with `brain` may end in `intent`, `brain2` and
    /// generator state `seed2`: every step of the plan is fixed, and so is the navigation
    /// answer (the first step of a shortest path toward the planned goal, or none).
    pub open spec fn routine_outcome(
        &self,
        actor: EntityId,
        from: GridPos,
        routine: NpcRoutineDef,
        brain: NpcBrainState,
        intent: ExplorationIntent,
        brain2: NpcBrainState,
        seed2: u64,
    ) -> bool {
        plan_outcome(
            self.map,
            self.entities,
            actor,
            from,
            routine,
            spec_routine_plan(self.map, self.entities, actor, from, routine, brain, *self.rng),
            intent,
            brain2,
            seed2,
        )
    }

    /// `self` has the same map, content, player and entities as `other`.
    pub open spec fn same_world(&self, other: &BehaviorCtx) -> bool {
        &&& self.map == other.map
        &&& self.content == other.content
        &&& self.player == other.player
        &&& *self.entities == *other.entities
    }
}

/// Advances roam / patrol / idle by one tick.
pub fn routine_tick(
    ctx: &mut BehaviorCtx<'_>,
    actor: EntityId,
    from: GridPos,
    routine: NpcRoutineDef,
    brain: &mut NpcBrainState,
) -> (intent: ExplorationIntent)
    requires
        old(ctx).map.wf(),
        old(ctx).entities.wf(),
    ensures
        *final(final(ctx).entities) == *final(old(ctx).entities),
        *final(final(ctx).rng) == *final(old(ctx).rng),
        final(ctx).same_world(old(ctx)),
        old(ctx).routine_outcome(actor, from, routine, *old(brain), intent, *final(brain), *final(ctx).rng),
{
    let (intent, nav) = routine_tick_ref(ctx, actor, from, &routine, brain);
    proof {
        let plan = spec_routine_plan(old(ctx).map, old(ctx).entities, actor, from, routine, *old(brain), *old(ctx).rng);
        assert(nav_answer_ok(old(ctx).map, old(ctx).entities, actor, from, plan_goal(plan.1, from), nav@));
        assert(plan_outcome_with(old(ctx).map, old(ctx).entities, actor, from, routine, plan, nav@, intent, *brain, *ctx.rng));
        assert(plan_outcome(old(ctx).map, old(ctx).entities, actor, from, routine, plan, intent, *brain, *ctx.rng));
    }
    intent
}

pub(crate) fn routine_tick_ref(
    ctx: &mut BehaviorCtx<'_>,
    actor: EntityId,
    from: GridPos,
    routine: &NpcRoutineDef,
    brain: &mut NpcBrainState,
) -> (res: (ExplorationIntent, Ghost<Option<GridPos>>))
    requires
        old(ctx).map.wf(),
        old(ctx).entities.wf(),
    ensures
        *final(final(ctx).entities) == *final(old(ctx).entities),
        *final(final(ctx).rng) == *final(old(ctx).rng),
        final(ctx).same_world(old(ctx)),
        plan_outcome_with(
            old(ctx).map,
            old(ctx).entities,
            actor,
            from,
            *routine,
            spec_routine_plan(old(ctx).map, old(ctx).entities, actor, from, *routine, *old(brain), *old(ctx).rng),
            res.1@,
            res.0,
            *final(brain),
            *final(ctx).rng,
        ),
{
    routine_step(ctx.map, &*ctx.entities, ctx.rng, actor, from, routine, brain)
}

/// One routine tick on plain parts of the world.
pub(crate) fn routine_step(
    map: &MapGrid,
    entities: &EntityArena,
    rng: &mut u64,
    actor: EntityId,
    from: GridPos,
    routine: &NpcRoutineDef,
    brain: &mut NpcBrainState,
) -> (res: (ExplorationIntent, Ghost<Option<GridPos>>))
    requires
        map.wf(),
        entities.wf(),
    ensures
        plan_outcome_with(
            map,
            entities,
            actor,
            from,
            *routine,
            spec_routine_plan(map, entities, actor, from, *routine, *old(brain), *old(rng)),
            res.1@,
            res.0,
            *final(brain),
            *final(rng),
        ),
{
    match routine {
        NpcRoutineDef::Idle => (ExplorationIntent::Idle, Ghost(None)),
        NpcRoutineDef::Roam { radius, wait_ticks } => roam_tick(map, entities, rng, actor, from, *radius, *wait_ticks, brain),
        NpcRoutineDef::Patrol { stops } => patrol_tick(map, entities, actor, from, stops, brain),
    }
}

fn roam_tick(
    map: &MapGrid,
    entities: &EntityArena,
    rng: &mut u64,
    actor: EntityId,
    from: GridPos,
    radius: u16,
    wait_ticks: u16,
    brain: &mut NpcBrainState,
) -> (res: (ExplorationIntent, Ghost<Option<GridPos>>))
    requires
        map.wf(),
        entities.wf(),
    ensures
        plan_outcome_with(
            map,
            entities,
            actor,
            from,
            NpcRoutineDef::Roam { radius, wait_ticks },
            spec_roam_plan(map, entities, actor, from, radius, wait_ticks, *old(brain), *old(rng)),
            res.1@,
            res.0,
            *final(brain),
            *final(rng),
        ),
{
    if consume_alarmed_settle(brain) {
        return (ExplorationIntent::Idle, Ghost(None));
    }
    if chebyshev(from, brain.home) > radius as i32 {
        brain.roam_goal = Some(brain.home);
    }
    let at_goal = match brain.roam_goal {
        Some(g) => g == from,
        None => false,
    };
    if at_goal {
        brain.roam_goal = None;
    }
    if brain.roam_goal.is_none() {
        if brain.roam_wait_ticks < wait_ticks {
            brain.roam_wait_ticks = brain.roam_wait_ticks + 1;
            return (ExplorationIntent::Idle, Ghost(None));
        }
        brain.roam_wait_ticks = 0;
        let g = pick_roam_goal(map, entities, brain, radius, actor, rng);
        brain.roam_goal = g;
    }
    let goal = match brain.roam_goal {
        Some(g) => g,
        None => { return (ExplorationIntent::Idle, Ghost(None)); },
    };
    let nav = shortest_first_step(map, entities, actor, from, goal);
    let next = match nav {
        Some(n) => n,
        None => { return (ExplorationIntent::Idle, Ghost(nav)); },
    };
    if next == goal {
        brain.roam_goal = None;
    }
    (ExplorationIntent::Step(next), Ghost(nav))
}

fn patrol_tick(
    map: &MapGrid,
    entities: &EntityArena,
    actor: EntityId,
    from: GridPos,
    stops: &Vec<PatrolStopDef>,
    brain: &mut NpcBrainState,
) -> (res: (ExplorationIntent, Ghost<Option<GridPos>>))
    requires
        map.wf(),
        entities.wf(),
    ensures
        ({
            let p = spec_patrol_plan(from, stops@, *old(brain));
            plan_outcome_with(
                map,
                entities,
                actor,
                from,
                NpcRoutineDef::Patrol { stops: *stops },
                (p.0, p.1, 0),
                res.1@,
                res.0,
                *final(brain),
                0,
            )
        }),
{
    if consume_alarmed_settle(brain) {
        return (ExplorationIntent::Idle, Ghost(None));
    }
    if stops.len() == 0 {
        return (ExplorationIntent::Idle, Ghost(None));
    }
    let mut goal = match patrol_goal(brain, stops) {
        Some(g) => g,
        None => from,
    };
    if from == goal {
        let stop = stops[brain.patrol_next_stop as usize % stops.len()];
        if brain.patrol_wait_ticks < stop.wait_ticks {
            brain.patrol_wait_ticks = brain.patrol_wait_ticks + 1;
            return (ExplorationIntent::Idle, Ghost(None));
        }
        brain.patrol_wait_ticks = 0;
        brain.patrol_next_stop = ((brain.patrol_next_stop as usize + 1) % stops.len()) as u16;
        goal = match patrol_goal(brain, stops) {
            Some(g) => g,
            None => from,
        };
    }
    let nav = shortest_first_step(map, entities, actor, from, goal);
    match nav {
        Some(n) => (ExplorationIntent::Step(n), Ghost(nav)),
        None => (ExplorationIntent::Idle, Ghost(nav)),
    }
}

} // verus!
