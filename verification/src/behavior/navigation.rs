//! Pathfinding shared by exploration and combat behavior: shortest paths over the
//! eight-connected grid.

use vstd::prelude::*;

use crate::entity::{EntityArena, EntityId, GridPos};
use crate::math::abs_int;
use crate::world::MapGrid;
use super::ctx::BehaviorCtx;

verus! {

/// Neighbour offsets in scan order (row by row, top-left first).
pub open spec fn spec_delta(k: int) -> (int, int) {
    if k == 0 {
        (-1, -1)
    } else if k == 1 {
        (0, -1)
    } else if k == 2 {
        (1, -1)
    } else if k == 3 {
        (-1, 0)
    } else if k == 4 {
        (1, 0)
    } else if k == 5 {
        (-1, 1)
    } else if k == 6 {
        (0, 1)
    } else {
        (1, 1)
    }
}

pub fn delta(k: usize) -> (d: (i32, i32))
    requires
        k < 8,
    ensures
        d.0 == spec_delta(k as int).0,
        d.1 == spec_delta(k as int).1,
{
    if k == 0 {
        (-1, -1)
    } else if k == 1 {
        (0, -1)
    } else if k == 2 {
        (1, -1)
    } else if k == 3 {
        (-1, 0)
    } else if k == 4 {
        (1, 0)
    } else if k == 5 {
        (-1, 1)
    } else if k == 6 {
        (0, 1)
    } else {
        (1, 1)
    }
}

/// Neighbour offsets in search order: the four orthogonal ones first, so that among
/// equally short paths straight steps are preferred.
pub open spec fn search_delta(k: int) -> (int, int) {
    if k == 0 {
        (0, -1)
    } else if k == 1 {
        (-1, 0)
    } else if k == 2 {
        (1, 0)
    } else if k == 3 {
        (0, 1)
    } else if k == 4 {
        (-1, -1)
    } else if k == 5 {
        (1, -1)
    } else if k == 6 {
        (-1, 1)
    } else {
        (1, 1)
    }
}

fn search_step(k: usize) -> (d: (i32, i32))
    requires
        k < 8,
    ensures
        d.0 == search_delta(k as int).0,
        d.1 == search_delta(k as int).1,
{
    if k == 0 {
        (0, -1)
    } else if k == 1 {
        (-1, 0)
    } else if k == 2 {
        (1, 0)
    } else if k == 3 {
        (0, 1)
    } else if k == 4 {
        (-1, -1)
    } else if k == 5 {
        (1, -1)
    } else if k == 6 {
        (-1, 1)
    } else {
        (1, 1)
    }
}

/// `c` may be entered by `actor` on the way to `goal`: it is on the map and free, except
/// that the goal cell only has to be walkable terrain (something may stand there).
pub open spec fn nav_enterable(map: &MapGrid, entities: &EntityArena, actor: EntityId, goal: GridPos, c: GridPos) -> bool {
    &&& map.spec_in_bounds(c.x as int, c.y as int)
    &&& if c == goal {
        !map.spec_blocks_movement(c.x as int, c.y as int)
    } else {
        entities.spec_can_move_to(map.spec_blocks_movement(c.x as int, c.y as int), c, Some(actor))
    }
}

/// `s` is a neighbour of `from` that may be entered on the way to `goal`.
pub open spec fn nav_step_ok(map: &MapGrid, entities: &EntityArena, actor: EntityId, from: GridPos, goal: GridPos, s: GridPos) -> bool {
    &&& s != from
    &&& abs_int(s.x - from.x) <= 1
    &&& abs_int(s.y - from.y) <= 1
    &&& nav_enterable(map, entities, actor, goal, s)
}

/// What a navigation query may answer: nothing when already at the goal, and otherwise
/// either nothing or an enterable neighbour.
pub open spec fn nav_result_ok(
    map: &MapGrid,
    entities: &EntityArena,
    actor: EntityId,
    from: GridPos,
    goal: GridPos,
    r: Option<GridPos>,
) -> bool {
    &&& from == goal ==> r is None
    &&& r matches Some(s) ==> nav_step_ok(map, entities, actor, from, goal, s)
}

/// The cell `k` steps around `from` (`k == 8` is `from` itself).
pub open spec fn step_cell(from: GridPos, k: int) -> GridPos {
    if k == 8 {
        from
    } else {
        GridPos { x: (from.x + search_delta(k).0) as i32, y: (from.y + search_delta(k).1) as i32 }
    }
}

/// Step `i` of `path` (to `path[i + 1]`) moves to a neighbour that may be entered.
pub open spec fn walk_step(map: &MapGrid, entities: &EntityArena, actor: EntityId, goal: GridPos, path: Seq<GridPos>, i: int) -> bool {
    nav_step_ok(map, entities, actor, path[i], goal, path[i + 1])
}

/// `path` is a walk `actor` may take on the way to `goal`: it starts on the map and each
/// step moves to a neighbour that may be entered.
pub open spec fn nav_walk(map: &MapGrid, entities: &EntityArena, actor: EntityId, goal: GridPos, path: Seq<GridPos>) -> bool {
    &&& path.len() > 0
    &&& map.spec_in_bounds(path[0].x as int, path[0].y as int)
    &&& forall|i: int| 0 <= i < path.len() - 1 ==> #[trigger] walk_step(map, entities, actor, goal, path, i)
}

/// Some walk on the way to `goal` leads from `a` to `b`.
pub open spec fn walk_between(map: &MapGrid, entities: &EntityArena, actor: EntityId, goal: GridPos, a: GridPos, b: GridPos) -> bool {
    exists|path: Seq<GridPos>| #[trigger] nav_walk(map, entities, actor, goal, path) && path[0] == a && path.last() == b
}

/// `actor` can walk from `from` to `goal`.
pub open spec fn nav_reachable(map: &MapGrid, entities: &EntityArena, actor: EntityId, from: GridPos, goal: GridPos) -> bool {
    walk_between(map, entities, actor, goal, from, goal)
}

/// A navigation answer that misses nothing: a step is given only when the goal can be
/// reached from it, and away from the goal nothing is given only when the goal cannot be
/// reached at all.
pub open spec fn nav_complete(
    map: &MapGrid,
    entities: &EntityArena,
    actor: EntityId,
    from: GridPos,
    goal: GridPos,
    r: Option<GridPos>,
) -> bool {
    &&& r matches Some(s) ==> nav_reachable(map, entities, actor, s, goal)
    &&& (r is None && from != goal) ==> !nav_reachable(map, entities, actor, from, goal)
}

/// The goal can be reached from `a` in at most `k` steps.
pub open spec fn reach_in(map: &MapGrid, entities: &EntityArena, actor: EntityId, goal: GridPos, a: GridPos, k: nat) -> bool
    decreases k,
{
    &&& map.spec_in_bounds(a.x as int, a.y as int)
    &&& (a == goal || (k > 0 && exists|d: int|
        0 <= d < 8 && #[trigger] nav_step_ok(map, entities, actor, a, goal, step_cell(a, d)) && reach_in(
            map,
            entities,
            actor,
            goal,
            step_cell(a, d),
            (k - 1) as nat,
        )))
}

/// Stepping from `c` in search direction `d` leads to a cell from which the goal is at most
/// `k` steps away.
pub open spec fn leads(map: &MapGrid, entities: &EntityArena, actor: EntityId, goal: GridPos, c: GridPos, d: int, k: nat) -> bool {
    &&& 0 <= d < 8
    &&& nav_step_ok(map, entities, actor, c, goal, step_cell(c, d))
    &&& reach_in(map, entities, actor, goal, step_cell(c, d), k)
}

/// The first search direction from `d` on that leads within `k` steps (8 when none does).
pub open spec fn first_leading(map: &MapGrid, entities: &EntityArena, actor: EntityId, goal: GridPos, c: GridPos, k: nat, d: int) -> int
    decreases 8 - d,
{
    if d >= 8 {
        8
    } else if leads(map, entities, actor, goal, c, d, k) {
        d
    } else {
        first_leading(map, entities, actor, goal, c, k, d + 1)
    }
}

/// The fewest steps in which the goal can be reached from `from` (when it can be reached).
pub open spec fn nav_dist(map: &MapGrid, entities: &EntityArena, actor: EntityId, from: GridPos, goal: GridPos) -> nat {
    choose|k: nat|
        reach_in(map, entities, actor, goal, from, k) && forall|j: nat| j < k ==> !#[trigger] reach_in(map, entities, actor, goal, from, j)
}

/// The step navigation takes: none at the goal or when the goal cannot be reached; otherwise
/// the first neighbour, in search order, from which the goal is one step nearer than from
/// `from`.
pub open spec fn nav_step(map: &MapGrid, entities: &EntityArena, actor: EntityId, from: GridPos, goal: GridPos) -> Option<GridPos> {
    if from == goal || !nav_reachable(map, entities, actor, from, goal) {
        None
    } else {
        Some(step_cell(from, first_leading(map, entities, actor, goal, from, (nav_dist(map, entities, actor, from, goal) - 1) as nat, 0)))
    }
}

/// Stepping from `from` to `s` keeps to a shortest path: whenever the goal is at most `j`
/// steps from `from`, it is at most `j - 1` steps from `s`.
pub open spec fn on_shortest_path(map: &MapGrid, entities: &EntityArena, actor: EntityId, from: GridPos, goal: GridPos, s: GridPos) -> bool {
    forall|j: nat| #[trigger] reach_in(map, entities, actor, goal, from, j) ==> j >= 1 && reach_in(map, entities, actor, goal, s, (j - 1) as nat)
}

/// The answer navigation gives (see [`nav_step`]); it is allowed (see [`nav_result_ok`]) and
/// complete (see [`nav_complete`]).
pub open spec fn nav_answer_ok(
    map: &MapGrid,
    entities: &EntityArena,
    actor: EntityId,
    from: GridPos,
    goal: GridPos,
    r: Option<GridPos>,
) -> bool {
    &&& r == nav_step(map, entities, actor, from, goal)
    &&& nav_result_ok(map, entities, actor, from, goal, r)
    &&& nav_complete(map, entities, actor, from, goal, r)
}

/// The answer navigation gives for `goal`.
pub open spec fn nav_answer(map: &MapGrid, entities: &EntityArena, actor: EntityId, from: GridPos, goal: GridPos) -> Option<GridPos> {
    choose|r: Option<GridPos>| nav_answer_ok(map, entities, actor, from, goal, r)
}

/// Every navigation query has its answer, and it is allowed and complete.
pub proof fn lemma_nav_answer_exists(map: &MapGrid, entities: &EntityArena, actor: EntityId, from: GridPos, goal: GridPos)
    ensures
        nav_answer_ok(map, entities, actor, from, goal, nav_answer(map, entities, actor, from, goal)),
        nav_answer(map, entities, actor, from, goal) == nav_step(map, entities, actor, from, goal),
{
    lemma_nav_step_props(map, entities, actor, from, goal);
    assert(nav_answer_ok(map, entities, actor, from, goal, nav_step(map, entities, actor, from, goal)));
}

proof fn lemma_walk_single(map: &MapGrid, entities: &EntityArena, actor: EntityId, goal: GridPos, c: GridPos)
    requires
        map.spec_in_bounds(c.x as int, c.y as int),
    ensures
        walk_between(map, entities, actor, goal, c, c),
{
    let path = seq![c];
    assert(nav_walk(map, entities, actor, goal, path));
}

proof fn lemma_walk_prepend(map: &MapGrid, entities: &EntityArena, actor: EntityId, goal: GridPos, a: GridPos, s: GridPos, b: GridPos)
    requires
        map.spec_in_bounds(a.x as int, a.y as int),
        nav_step_ok(map, entities, actor, a, goal, s),
        walk_between(map, entities, actor, goal, s, b),
    ensures
        walk_between(map, entities, actor, goal, a, b),
{
    let path = choose|path: Seq<GridPos>| #[trigger] nav_walk(map, entities, actor, goal, path) && path[0] == s && path.last() == b;
    let p2 = seq![a] + path;
    assert forall|i: int| 0 <= i < p2.len() - 1 implies #[trigger] walk_step(map, entities, actor, goal, p2, i) by {
        if i > 0 {
            assert(walk_step(map, entities, actor, goal, path, i - 1));
            assert(p2[i] == path[i - 1] && p2[i + 1] == path[i]);
        }
    }
    assert(nav_walk(map, entities, actor, goal, p2));
    assert(p2.last() == b);
}

proof fn lemma_reach_mono(map: &MapGrid, entities: &EntityArena, actor: EntityId, goal: GridPos, a: GridPos, k: nat)
    requires
        reach_in(map, entities, actor, goal, a, k),
    ensures
        reach_in(map, entities, actor, goal, a, k + 1),
    decreases k,
{
    if a != goal {
        let d = choose|d: int|
            0 <= d < 8 && #[trigger] nav_step_ok(map, entities, actor, a, goal, step_cell(a, d)) && reach_in(
                map,
                entities,
                actor,
                goal,
                step_cell(a, d),
                (k - 1) as nat,
            );
        lemma_reach_mono(map, entities, actor, goal, step_cell(a, d), (k - 1) as nat);
        assert(nav_step_ok(map, entities, actor, a, goal, step_cell(a, d)));
    }
}

proof fn lemma_reach_mono_le(map: &MapGrid, entities: &EntityArena, actor: EntityId, goal: GridPos, a: GridPos, j: nat, k: nat)
    requires
        j <= k,
        reach_in(map, entities, actor, goal, a, j),
    ensures
        reach_in(map, entities, actor, goal, a, k),
    decreases k - j,
{
    if j < k {
        lemma_reach_mono(map, entities, actor, goal, a, j);
        lemma_reach_mono_le(map, entities, actor, goal, a, j + 1, k);
    }
}

/// A walk of `n` cells to the goal reaches it from its `i`-th cell within `n - 1 - i` steps.
proof fn lemma_walk_reach(map: &MapGrid, entities: &EntityArena, actor: EntityId, goal: GridPos, path: Seq<GridPos>, i: int)
    requires
        nav_walk(map, entities, actor, goal, path),
        path.last() == goal,
        0 <= i < path.len(),
    ensures
        reach_in(map, entities, actor, goal, path[i], (path.len() - 1 - i) as nat),
    decreases path.len() - i,
{
    if i > 0 {
        assert(walk_step(map, entities, actor, goal, path, i - 1));
    }
    if i < path.len() - 1 {
        lemma_walk_reach(map, entities, actor, goal, path, i + 1);
        assert(walk_step(map, entities, actor, goal, path, i));
        let d = lemma_step_dir(path[i], path[i + 1]);
        assert(nav_step_ok(map, entities, actor, path[i], goal, step_cell(path[i], d)));
        assert((path.len() - 1 - i) as nat - 1 == (path.len() - 1 - (i + 1)) as nat);
    }
}

/// Reaching the goal within some number of steps means a walk to it exists.
proof fn lemma_reach_walk(map: &MapGrid, entities: &EntityArena, actor: EntityId, goal: GridPos, a: GridPos, k: nat)
    requires
        reach_in(map, entities, actor, goal, a, k),
    ensures
        nav_reachable(map, entities, actor, a, goal),
    decreases k,
{
    if a == goal {
        lemma_walk_single(map, entities, actor, goal, a);
    } else {
        let d = choose|d: int|
            0 <= d < 8 && #[trigger] nav_step_ok(map, entities, actor, a, goal, step_cell(a, d)) && reach_in(
                map,
                entities,
                actor,
                goal,
                step_cell(a, d),
                (k - 1) as nat,
            );
        lemma_reach_walk(map, entities, actor, goal, step_cell(a, d), (k - 1) as nat);
        lemma_walk_prepend(map, entities, actor, goal, a, step_cell(a, d), goal);
    }
}

/// When the goal can be reached, `nav_dist` is the fewest steps it takes.
proof fn lemma_dist_min(map: &MapGrid, entities: &EntityArena, actor: EntityId, goal: GridPos, a: GridPos, k: nat)
    requires
        reach_in(map, entities, actor, goal, a, k),
    ensures
        reach_in(map, entities, actor, goal, a, nav_dist(map, entities, actor, a, goal)),
        nav_dist(map, entities, actor, a, goal) <= k,
        forall|j: nat| j < nav_dist(map, entities, actor, a, goal) ==> !#[trigger] reach_in(map, entities, actor, goal, a, j),
    decreases k,
{
    if k > 0 && reach_in(map, entities, actor, goal, a, (k - 1) as nat) {
        lemma_dist_min(map, entities, actor, goal, a, (k - 1) as nat);
    } else {
        assert forall|j: nat| j < k implies !#[trigger] reach_in(map, entities, actor, goal, a, j) by {
            if reach_in(map, entities, actor, goal, a, j) {
                lemma_reach_mono_le(map, entities, actor, goal, a, j, (k - 1) as nat);
            }
        }
        let m = nav_dist(map, entities, actor, a, goal);
        if m > k {
            assert(!reach_in(map, entities, actor, goal, a, k));
        }
    }
}

proof fn lemma_dist_is(map: &MapGrid, entities: &EntityArena, actor: EntityId, goal: GridPos, a: GridPos, k: nat)
    requires
        reach_in(map, entities, actor, goal, a, k),
        k > 0 ==> !reach_in(map, entities, actor, goal, a, (k - 1) as nat),
    ensures
        nav_dist(map, entities, actor, a, goal) == k,
{
    lemma_dist_min(map, entities, actor, goal, a, k);
    let m = nav_dist(map, entities, actor, a, goal);
    if m < k {
        lemma_reach_mono_le(map, entities, actor, goal, a, m, (k - 1) as nat);
    }
}

proof fn lemma_first_leading_found(
    map: &MapGrid,
    entities: &EntityArena,
    actor: EntityId,
    goal: GridPos,
    c: GridPos,
    k: nat,
    d: int,
    e: int,
)
    requires
        0 <= d <= e,
        leads(map, entities, actor, goal, c, e, k),
    ensures
        d <= first_leading(map, entities, actor, goal, c, k, d) <= e,
        leads(map, entities, actor, goal, c, first_leading(map, entities, actor, goal, c, k, d), k),
    decreases e - d,
{
    if d < e && !leads(map, entities, actor, goal, c, d, k) {
        lemma_first_leading_found(map, entities, actor, goal, c, k, d + 1, e);
    }
}

proof fn lemma_first_leading_is(
    map: &MapGrid,
    entities: &EntityArena,
    actor: EntityId,
    goal: GridPos,
    c: GridPos,
    k: nat,
    d: int,
    e: int,
)
    requires
        0 <= d <= e,
        leads(map, entities, actor, goal, c, e, k),
        forall|dd: int| d <= dd < e ==> !#[trigger] leads(map, entities, actor, goal, c, dd, k),
    ensures
        first_leading(map, entities, actor, goal, c, k, d) == e,
    decreases e - d,
{
    if d < e {
        assert(!leads(map, entities, actor, goal, c, d, k));
        lemma_first_leading_is(map, entities, actor, goal, c, k, d + 1, e);
    }
}

/// A walk from `from` ending elsewhere puts both ends on the map.
proof fn lemma_reachable_bounds(map: &MapGrid, entities: &EntityArena, actor: EntityId, from: GridPos, goal: GridPos)
    requires
        nav_reachable(map, entities, actor, from, goal),
        from != goal,
    ensures
        map.spec_in_bounds(from.x as int, from.y as int),
        map.spec_in_bounds(goal.x as int, goal.y as int),
{
    let path = choose|path: Seq<GridPos>| #[trigger] nav_walk(map, entities, actor, goal, path) && path[0] == from
        && path.last() == goal;
    assert(walk_step(map, entities, actor, goal, path, path.len() - 2));
}

/// The answer of [`nav_step`] is allowed, complete, and keeps to a shortest path.
pub proof fn lemma_nav_step_props(map: &MapGrid, entities: &EntityArena, actor: EntityId, from: GridPos, goal: GridPos)
    ensures
        nav_result_ok(map, entities, actor, from, goal, nav_step(map, entities, actor, from, goal)),
        nav_complete(map, entities, actor, from, goal, nav_step(map, entities, actor, from, goal)),
        nav_step(map, entities, actor, from, goal) matches Some(s) ==> on_shortest_path(map, entities, actor, from, goal, s),
{
    if from != goal && nav_reachable(map, entities, actor, from, goal) {
        let path = choose|path: Seq<GridPos>| #[trigger] nav_walk(map, entities, actor, goal, path) && path[0] == from
            && path.last() == goal;
        lemma_walk_reach(map, entities, actor, goal, path, 0);
        lemma_dist_min(map, entities, actor, goal, from, (path.len() - 1) as nat);
        let k = nav_dist(map, entities, actor, from, goal);
        assert(k > 0);
        let d0 = choose|d: int|
            0 <= d < 8 && #[trigger] nav_step_ok(map, entities, actor, from, goal, step_cell(from, d)) && reach_in(
                map,
                entities,
                actor,
                goal,
                step_cell(from, d),
                (k - 1) as nat,
            );
        assert(leads(map, entities, actor, goal, from, d0, (k - 1) as nat));
        lemma_first_leading_found(map, entities, actor, goal, from, (k - 1) as nat, 0, d0);
        let e = first_leading(map, entities, actor, goal, from, (k - 1) as nat, 0);
        let s = step_cell(from, e);
        lemma_reach_walk(map, entities, actor, goal, s, (k - 1) as nat);
        assert forall|j: nat| #[trigger] reach_in(map, entities, actor, goal, from, j) implies j >= 1 && reach_in(
            map,
            entities,
            actor,
            goal,
            s,
            (j - 1) as nat,
        ) by {
            assert(j >= k);
            lemma_reach_mono_le(map, entities, actor, goal, s, (k - 1) as nat, (j - 1) as nat);
        }
    }
}

/// Every cell on the map is reached in `k + 1` steps exactly when it is in `k`.
pub open spec fn stable(map: &MapGrid, entities: &EntityArena, actor: EntityId, goal: GridPos, k: nat) -> bool {
    forall|c: GridPos|
        map.spec_in_bounds(c.x as int, c.y as int) ==> (#[trigger] reach_in(map, entities, actor, goal, c, k + 1)
            == reach_in(map, entities, actor, goal, c, k))
}

proof fn lemma_stable(map: &MapGrid, entities: &EntityArena, actor: EntityId, goal: GridPos, k: nat, m: nat, a: GridPos)
    requires
        stable(map, entities, actor, goal, k),
        k <= m,
    ensures
        reach_in(map, entities, actor, goal, a, m) == reach_in(map, entities, actor, goal, a, k),
    decreases m,
{
    if k < m {
        if reach_in(map, entities, actor, goal, a, k) {
            lemma_reach_mono_le(map, entities, actor, goal, a, k, m);
        }
        if reach_in(map, entities, actor, goal, a, m) && a != goal {
            let d = choose|d: int|
                0 <= d < 8 && #[trigger] nav_step_ok(map, entities, actor, a, goal, step_cell(a, d)) && reach_in(
                    map,
                    entities,
                    actor,
                    goal,
                    step_cell(a, d),
                    (m - 1) as nat,
                );
            lemma_stable(map, entities, actor, goal, k, (m - 1) as nat, step_cell(a, d));
            assert(nav_step_ok(map, entities, actor, a, goal, step_cell(a, d)));
            assert(reach_in(map, entities, actor, goal, a, k + 1));
        }
    }
}

/// Number of cells not yet reached.
pub open spec fn count_unvisited(s: Seq<bool>) -> nat
    decreases s.len(),
{
    if s.len() == 0 {
        0
    } else {
        count_unvisited(s.drop_last()) + if s.last() {
            0nat
        } else {
            1nat
        }
    }
}

proof fn lemma_count_grow(a: Seq<bool>, b: Seq<bool>)
    requires
        a.len() == b.len(),
        forall|i: int| 0 <= i < a.len() && a[i] ==> b[i],
    ensures
        count_unvisited(b) <= count_unvisited(a),
        (exists|i: int| 0 <= i < a.len() && b[i] && !a[i]) ==> count_unvisited(b) < count_unvisited(a),
    decreases a.len(),
{
    if a.len() > 0 {
        let (a1, b1) = (a.drop_last(), b.drop_last());
        assert forall|i: int| 0 <= i < a1.len() && a1[i] implies b1[i] by {
            assert(a1[i] == a[i] && b1[i] == b[i]);
        }
        lemma_count_grow(a1, b1);
        if exists|i: int| 0 <= i < a.len() && b[i] && !a[i] {
            let i = choose|i: int| 0 <= i < a.len() && b[i] && !a[i];
            if i < a.len() - 1 {
                assert(b1[i] && !a1[i]);
            }
        }
    }
}

/// Index of cell `c` in the row-major tile vector.
pub open spec fn idx(map: &MapGrid, c: GridPos) -> int {
    map.cell_index(c.x as int, c.y as int)
}

proof fn lemma_idx_injective(map: &MapGrid, a: GridPos, b: GridPos)
    requires
        map.spec_in_bounds(a.x as int, a.y as int),
        map.spec_in_bounds(b.x as int, b.y as int),
        idx(map, a) == idx(map, b),
    ensures
        a == b,
{
    let w = map.width as int;
    let (ax, ay, bx, by) = (a.x as int, a.y as int, b.x as int, b.y as int);
    assert(ay == by && ax == bx) by (nonlinear_arith)
        requires
            0 <= ax < w,
            0 <= bx < w,
            0 <= ay,
            0 <= by,
            ay * w + ax == by * w + bx,
    {
        if ay < by {
            assert(ay * w + w <= by * w) by (nonlinear_arith)
                requires ay < by, 0 <= w;
        } else if by < ay {
            assert(by * w + w <= ay * w) by (nonlinear_arith)
                requires by < ay, 0 <= w;
        }
    }
}

/// The direction, among the eight searched, of a neighbour `s` of `c`.
proof fn lemma_step_dir(c: GridPos, s: GridPos) -> (k: int)
    requires
        s != c,
        abs_int(s.x - c.x) <= 1,
        abs_int(s.y - c.y) <= 1,
    ensures
        0 <= k < 8,
        step_cell(c, k) == s,
{
    let dx = s.x - c.x;
    let dy = s.y - c.y;
    if dx == 0 && dy == -1 {
        0
    } else if dx == -1 && dy == 0 {
        1
    } else if dx == 1 && dy == 0 {
        2
    } else if dx == 0 && dy == 1 {
        3
    } else if dx == -1 && dy == -1 {
        4
    } else if dx == 1 && dy == -1 {
        5
    } else if dx == -1 && dy == 1 {
        6
    } else {
        7
    }
}

fn cell_index(map: &MapGrid, x: i32, y: i32) -> (i: usize)
    requires
        map.wf(),
        map.spec_in_bounds(x as int, y as int),
    ensures
        i == map.cell_index(x as int, y as int),
        i < map.tiles@.len(),
{
    let len = map.tiles.len();
    proof {
        map.lemma_cell_index(x as int, y as int);
        assert(0 <= (y as int) * (map.width as int)) by (nonlinear_arith)
            requires 0 <= y, 0 <= map.width;
    }
    let i = (y as usize) * (map.width as usize) + (x as usize);
    assert(i < len);
    i
}

/// `e` tells, for the cells before index `upto`, whether they may be entered.
pub open spec fn enter_upto(map: &MapGrid, entities: &EntityArena, actor: EntityId, goal: GridPos, e: Seq<bool>, upto: int) -> bool {
    forall|c: GridPos|
        map.spec_in_bounds(c.x as int, c.y as int) && #[trigger] idx(map, c) < upto ==> e[idx(map, c)] == nav_enterable(
            map,
            entities,
            actor,
            goal,
            c,
        )
}

/// `v` tells, for the cells before index `upto`, whether the goal is at most `k` steps away.
pub open spec fn level_upto(map: &MapGrid, entities: &EntityArena, actor: EntityId, goal: GridPos, v: Seq<bool>, upto: int, k: nat) -> bool {
    forall|c: GridPos|
        map.spec_in_bounds(c.x as int, c.y as int) && #[trigger] idx(map, c) < upto ==> v[idx(map, c)] == reach_in(
            map,
            entities,
            actor,
            goal,
            c,
            k,
        )
}

/// Whether each cell may be entered on the way to `goal`, by cell index.
fn enterable_cells(map: &MapGrid, entities: &EntityArena, actor: EntityId, goal: GridPos) -> (e: Vec<bool>)
    requires
        map.wf(),
        entities.wf(),
    ensures
        e@.len() == map.tiles@.len(),
        enter_upto(map, entities, actor, goal, e@, e@.len() as int),
{
    let w = map.width;
    let h = map.height;
    let mut e: Vec<bool> = Vec::new();
    let mut y: u16 = 0;
    while y < h
        invariant
            map.wf(),
            entities.wf(),
            w == map.width,
            h == map.height,
            y <= h,
            e@.len() == y * w,
            enter_upto(map, entities, actor, goal, e@, e@.len() as int),
        decreases h - y,
    {
        let mut x: u16 = 0;
        while x < w
            invariant
                map.wf(),
                entities.wf(),
                w == map.width,
                h == map.height,
                y < h,
                x <= w,
                e@.len() == y * w + x,
                enter_upto(map, entities, actor, goal, e@, e@.len() as int),
            decreases w - x,
        {
            let cell = GridPos { x: x as i32, y: y as i32 };
            let blocked = map.blocks_movement(cell.x, cell.y);
            let ok = if cell == goal {
                !blocked
            } else {
                entities.can_move_to(blocked, cell, Some(actor))
            };
            let ghost e0 = e@;
            assert(idx(map, cell) == e0.len());
            e.push(ok);
            assert forall|c: GridPos|
                map.spec_in_bounds(c.x as int, c.y as int) && #[trigger] idx(map, c) < e@.len() implies e@[idx(map, c)]
                == nav_enterable(map, entities, actor, goal, c) by {
                if idx(map, c) == e0.len() {
                    lemma_idx_injective(map, c, cell);
                } else {
                    assert(e@[idx(map, c)] == e0[idx(map, c)]);
                }
            }
            x = x + 1;
        }
        assert((y + 1) * (w as int) == y * w + w) by (nonlinear_arith);
        y = y + 1;
    }
    assert(h * (w as int) == (w as int) * (h as int)) by (nonlinear_arith);
    e
}

/// From the cells reached within `k` steps, those reached within `k + 1`; the flag tells
/// whether any cell was added.
fn relax_once(
    map: &MapGrid,
    enter: &Vec<bool>,
    cur: &Vec<bool>,
    goal: GridPos,
    Ghost(entities): Ghost<&EntityArena>,
    Ghost(actor): Ghost<EntityId>,
    Ghost(k): Ghost<nat>,
) -> (res: (Vec<bool>, bool))
    requires
        map.wf(),
        enter@.len() == map.tiles@.len(),
        cur@.len() == map.tiles@.len(),
        enter_upto(map, entities, actor, goal, enter@, enter@.len() as int),
        level_upto(map, entities, actor, goal, cur@, cur@.len() as int, k),
    ensures
        res.0@.len() == map.tiles@.len(),
        level_upto(map, entities, actor, goal, res.0@, res.0@.len() as int, k + 1),
        forall|i: int| 0 <= i < cur@.len() && cur@[i] ==> res.0@[i],
        res.1 <==> exists|i: int| 0 <= i < cur@.len() && #[trigger] res.0@[i] && !cur@[i],
{
    let w = map.width;
    let h = map.height;
    let mut next: Vec<bool> = Vec::new();
    let mut changed = false;
    let mut y: u16 = 0;
    while y < h
        invariant
            map.wf(),
            w == map.width,
            h == map.height,
            enter@.len() == map.tiles@.len(),
            cur@.len() == map.tiles@.len(),
            enter_upto(map, entities, actor, goal, enter@, enter@.len() as int),
            level_upto(map, entities, actor, goal, cur@, cur@.len() as int, k),
            y <= h,
            next@.len() == y * w,
            level_upto(map, entities, actor, goal, next@, next@.len() as int, k + 1),
            forall|i: int| 0 <= i < next@.len() && cur@[i] ==> next@[i],
            changed <==> exists|i: int| 0 <= i < next@.len() && #[trigger] next@[i] && !cur@[i],
        decreases h - y,
    {
        let mut x: u16 = 0;
        while x < w
            invariant
                map.wf(),
                w == map.width,
                h == map.height,
                enter@.len() == map.tiles@.len(),
                cur@.len() == map.tiles@.len(),
                enter_upto(map, entities, actor, goal, enter@, enter@.len() as int),
                level_upto(map, entities, actor, goal, cur@, cur@.len() as int, k),
                y < h,
                x <= w,
                next@.len() == y * w + x,
                level_upto(map, entities, actor, goal, next@, next@.len() as int, k + 1),
                forall|i: int| 0 <= i < next@.len() && cur@[i] ==> next@[i],
                changed <==> exists|i: int| 0 <= i < next@.len() && #[trigger] next@[i] && !cur@[i],
            decreases w - x,
        {
            let cell = GridPos { x: x as i32, y: y as i32 };
            proof {
                map.lemma_cell_index(x as int, y as int);
            }
            let i: usize = next.len();
            assert(idx(map, cell) == i);
            let mut any = false;
            let mut d: usize = 0;
            while d < 8
                invariant
                    map.wf(),
                    w == map.width,
                    h == map.height,
                    enter@.len() == map.tiles@.len(),
                    cur@.len() == map.tiles@.len(),
                    enter_upto(map, entities, actor, goal, enter@, enter@.len() as int),
                    level_upto(map, entities, actor, goal, cur@, cur@.len() as int, k),
                    cell.x == x,
                    cell.y == y,
                    x < w,
                    y < h,
                    d <= 8,
                    any <==> exists|dd: int| 0 <= dd < d && #[trigger] leads(map, entities, actor, goal, cell, dd, k),
                decreases 8 - d,
            {
                let (dx, dy) = search_step(d);
                let nx: i64 = x as i64 + dx as i64;
                let ny: i64 = y as i64 + dy as i64;
                let ghost s = step_cell(cell, d as int);
                assert(s.x == nx && s.y == ny);
                if 0 <= nx && nx < w as i64 && 0 <= ny && ny < h as i64 {
                    let ni = cell_index(map, nx as i32, ny as i32);
                    assert(ni == idx(map, s));
                    if enter[ni] && cur[ni] {
                        any = true;
                    }
                    assert(leads(map, entities, actor, goal, cell, d as int, k) == (enter@[ni as int] && cur@[ni as int]));
                } else {
                    assert(!leads(map, entities, actor, goal, cell, d as int, k));
                }
                d = d + 1;
            }
            let v = cur[i] || cell == goal || any;
            proof {
                if cur@[i as int] {
                    assert(reach_in(map, entities, actor, goal, cell, k));
                    lemma_reach_mono(map, entities, actor, goal, cell, k);
                }
                if reach_in(map, entities, actor, goal, cell, k + 1) && cell != goal {
                    let d0 = choose|d: int|
                        0 <= d < 8 && #[trigger] nav_step_ok(map, entities, actor, cell, goal, step_cell(cell, d)) && reach_in(
                            map,
                            entities,
                            actor,
                            goal,
                            step_cell(cell, d),
                            k,
                        );
                    assert(leads(map, entities, actor, goal, cell, d0, k));
                }
                if any {
                    let d1 = choose|dd: int| 0 <= dd < 8 && #[trigger] leads(map, entities, actor, goal, cell, dd, k);
                    assert(nav_step_ok(map, entities, actor, cell, goal, step_cell(cell, d1)));
                }
                assert(v == reach_in(map, entities, actor, goal, cell, k + 1));
            }
            if v && !cur[i] {
                changed = true;
            }
            let ghost n0 = next@;
            next.push(v);
            proof {
                assert forall|c: GridPos|
                    map.spec_in_bounds(c.x as int, c.y as int) && #[trigger] idx(map, c) < next@.len() implies next@[idx(map, c)]
                    == reach_in(map, entities, actor, goal, c, k + 1) by {
                    if idx(map, c) == n0.len() {
                        lemma_idx_injective(map, c, cell);
                    } else {
                        assert(next@[idx(map, c)] == n0[idx(map, c)]);
                    }
                }
                assert forall|j: int| 0 <= j < next@.len() && cur@[j] implies next@[j] by {
                    if j < n0.len() {
                        assert(next@[j] == n0[j]);
                    }
                }
                if changed {
                    if v && !cur@[i as int] {
                        assert(next@[i as int] && !cur@[i as int]);
                    } else {
                        let j = choose|j: int| 0 <= j < n0.len() && #[trigger] n0[j] && !cur@[j];
                        assert(next@[j] == n0[j]);
                    }
                } else {
                    assert forall|j: int| 0 <= j < next@.len() implies !(#[trigger] next@[j] && !cur@[j]) by {
                        if j < n0.len() {
                            assert(next@[j] == n0[j]);
                        }
                    }
                }
            }
            x = x + 1;
        }
        assert((y + 1) * (w as int) == y * w + w) by (nonlinear_arith);
        y = y + 1;
    }
    assert(h * (w as int) == (w as int) * (h as int)) by (nonlinear_arith);
    (next, changed)
}

/// The neighbour of `from` in the first search direction that leads within `k - 1` steps,
/// given the cells that may be entered and those within `k - 1` steps of the goal.
fn first_leading_step(
    map: &MapGrid,
    enter: &Vec<bool>,
    prev: &Vec<bool>,
    from: GridPos,
    goal: GridPos,
    Ghost(entities): Ghost<&EntityArena>,
    Ghost(actor): Ghost<EntityId>,
    Ghost(k): Ghost<nat>,
) -> (r: Option<GridPos>)
    requires
        map.wf(),
        enter@.len() == map.tiles@.len(),
        prev@.len() == map.tiles@.len(),
        k > 0,
        from != goal,
        enter_upto(map, entities, actor, goal, enter@, enter@.len() as int),
        level_upto(map, entities, actor, goal, prev@, prev@.len() as int, (k - 1) as nat),
        reach_in(map, entities, actor, goal, from, k),
    ensures
        r == Some(step_cell(from, first_leading(map, entities, actor, goal, from, (k - 1) as nat, 0))),
{
    let n = map.tiles.len();
    let mut d: usize = 0;
    while d < 8
        invariant
            map.wf(),
            n == map.tiles@.len(),
            enter@.len() == n,
            prev@.len() == n,
            k > 0,
            from != goal,
            map.spec_in_bounds(from.x as int, from.y as int),
            enter_upto(map, entities, actor, goal, enter@, n as int),
            level_upto(map, entities, actor, goal, prev@, n as int, (k - 1) as nat),
            reach_in(map, entities, actor, goal, from, k),
            d <= 8,
            forall|dd: int| 0 <= dd < d ==> !#[trigger] leads(map, entities, actor, goal, from, dd, (k - 1) as nat),
        decreases 8 - d,
    {
        let (dx, dy) = search_step(d);
        let nx: i64 = from.x as i64 + dx as i64;
        let ny: i64 = from.y as i64 + dy as i64;
        let ghost s = step_cell(from, d as int);
        assert(s.x == nx && s.y == ny);
        if 0 <= nx && nx < map.width as i64 && 0 <= ny && ny < map.height as i64 {
            let ni = cell_index(map, nx as i32, ny as i32);
            assert(ni == idx(map, s));
            if enter[ni] && prev[ni] {
                let step = GridPos { x: nx as i32, y: ny as i32 };
                proof {
                    assert(leads(map, entities, actor, goal, from, d as int, (k - 1) as nat));
                    lemma_first_leading_is(map, entities, actor, goal, from, (k - 1) as nat, 0, d as int);
                }
                return Some(step);
            }
            assert(!leads(map, entities, actor, goal, from, d as int, (k - 1) as nat));
        } else {
            assert(!leads(map, entities, actor, goal, from, d as int, (k - 1) as nat));
        }
        d = d + 1;
    }
    proof {
        let d0 = choose|d: int|
            0 <= d < 8 && #[trigger] nav_step_ok(map, entities, actor, from, goal, step_cell(from, d)) && reach_in(
                map,
                entities,
                actor,
                goal,
                step_cell(from, d),
                (k - 1) as nat,
            );
        assert(leads(map, entities, actor, goal, from, d0, (k - 1) as nat));
    }
    None
}

/// First step of a shortest eight-connected path from `from` to `goal`: the set of cells
/// from which the goal is at most `k` steps away is grown one step at a time until it
/// holds `from`, and the first neighbour, in search order, that was in the previous set is
/// taken. `None` when already there or when the goal cannot be reached.
pub(crate) fn shortest_first_step(map: &MapGrid, entities: &EntityArena, actor: EntityId, from: GridPos, goal: GridPos) -> (r: Option<GridPos>)
    requires
        map.wf(),
        entities.wf(),
    ensures
        r == nav_step(map, entities, actor, from, goal),
        nav_result_ok(map, entities, actor, from, goal, r),
        nav_complete(map, entities, actor, from, goal, r),
{
    proof {
        lemma_nav_step_props(map, entities, actor, from, goal);
    }
    if from == goal {
        return None;
    }
    if !map.in_bounds(from.x, from.y) || !map.in_bounds(goal.x, goal.y) {
        proof {
            if nav_reachable(map, entities, actor, from, goal) {
                lemma_reachable_bounds(map, entities, actor, from, goal);
            }
        }
        return None;
    }
    let enter = enterable_cells(map, entities, actor, goal);
    let n = map.tiles.len();
    let mut cur: Vec<bool> = Vec::new();
    while cur.len() < n
        invariant
            cur@.len() <= n,
            forall|j: int| 0 <= j < cur@.len() ==> !#[trigger] cur@[j],
        decreases n - cur@.len(),
    {
        cur.push(false);
    }
    let gi = cell_index(map, goal.x, goal.y);
    cur.set(gi, true);
    let fi = cell_index(map, from.x, from.y);
    proof {
        assert forall|c: GridPos|
            map.spec_in_bounds(c.x as int, c.y as int) && #[trigger] idx(map, c) < cur@.len() implies cur@[idx(map, c)]
            == reach_in(map, entities, actor, goal, c, 0) by {
            if idx(map, c) == gi as int {
                lemma_idx_injective(map, c, goal);
            }
        }
        assert(fi as int == idx(map, from));
    }
    let mut prev: Vec<bool> = Vec::new();
    let ghost mut k: nat = 0;
    while !cur[fi]
        invariant
            map.wf(),
            entities.wf(),
            n == map.tiles@.len(),
            enter@.len() == n,
            cur@.len() == n,
            from != goal,
            map.spec_in_bounds(from.x as int, from.y as int),
            fi == idx(map, from),
            fi < n,
            enter_upto(map, entities, actor, goal, enter@, n as int),
            level_upto(map, entities, actor, goal, cur@, n as int, k),
            k > 0 ==> prev@.len() == n && level_upto(map, entities, actor, goal, prev@, n as int, (k - 1) as nat) && !prev@[fi as int],
            !nav_reachable(map, entities, actor, from, goal) ==> nav_step(map, entities, actor, from, goal) is None,
        decreases count_unvisited(cur@),
    {
        let (next, changed) = relax_once(map, &enter, &cur, goal, Ghost(entities), Ghost(actor), Ghost(k));
        if !changed {
            proof {
                assert forall|c: GridPos| map.spec_in_bounds(c.x as int, c.y as int) implies (#[trigger] reach_in(
                    map,
                    entities,
                    actor,
                    goal,
                    c,
                    k + 1,
                ) == reach_in(map, entities, actor, goal, c, k)) by {
                    map.lemma_cell_index(c.x as int, c.y as int);
                    assert(next@[idx(map, c)] == cur@[idx(map, c)]);
                }
                if nav_reachable(map, entities, actor, from, goal) {
                    let path = choose|path: Seq<GridPos>| #[trigger] nav_walk(map, entities, actor, goal, path) && path[0]
                        == from && path.last() == goal;
                    lemma_walk_reach(map, entities, actor, goal, path, 0);
                    let m = (path.len() - 1) as nat;
                    if m >= k {
                        lemma_stable(map, entities, actor, goal, k, m, from);
                    } else {
                        lemma_reach_mono_le(map, entities, actor, goal, from, m, k);
                    }
                }
            }
            return None;
        }
        proof {
            lemma_count_grow(cur@, next@);
        }
        prev = cur;
        cur = next;
        proof {
            k = k + 1;
        }
    }
    proof {
        assert(reach_in(map, entities, actor, goal, from, k));
        lemma_dist_is(map, entities, actor, goal, from, k);
        lemma_reach_walk(map, entities, actor, goal, from, k);
    }
    first_leading_step(map, &enter, &prev, from, goal, Ghost(entities), Ghost(actor), Ghost(k))
}

impl<'a> BehaviorCtx<'a> {
    pub open spec fn spec_nav_ok(&self, actor: EntityId, from: GridPos, goal: GridPos, r: Option<GridPos>) -> bool {
        nav_result_ok(self.map, self.entities, actor, from, goal, r)
    }

    pub open spec fn spec_nav_complete(&self, actor: EntityId, from: GridPos, goal: GridPos, r: Option<GridPos>) -> bool {
        nav_complete(self.map, self.entities, actor, from, goal, r)
    }

    pub open spec fn spec_nav_step(&self, actor: EntityId, from: GridPos, goal: GridPos) -> Option<GridPos> {
        nav_step(self.map, self.entities, actor, from, goal)
    }

    pub open spec fn spec_on_shortest_path(&self, actor: EntityId, from: GridPos, goal: GridPos, s: GridPos) -> bool {
        on_shortest_path(self.map, self.entities, actor, from, goal, s)
    }
}

/// One step along a shortest path from `from` toward `goal`, or `None` when already there,
/// blocked or unreachable. Among equally short paths the first neighbour in search order
/// (orthogonal steps before diagonal ones) is taken.
pub fn next_step_toward(ctx: &BehaviorCtx<'_>, actor: EntityId, from: GridPos, goal: GridPos) -> (r: Option<GridPos>)
    requires
        ctx.map.wf(),
        ctx.entities.wf(),
    ensures
        r == ctx.spec_nav_step(actor, from, goal),
        ctx.spec_nav_ok(actor, from, goal, r),
        ctx.spec_nav_complete(actor, from, goal, r),
        r matches Some(s) ==> ctx.spec_on_shortest_path(actor, from, goal, s),
{
    proof {
        lemma_nav_step_props(ctx.map, &*ctx.entities, actor, from, goal);
    }
    shortest_first_step(ctx.map, &*ctx.entities, actor, from, goal)
}

} // verus!
