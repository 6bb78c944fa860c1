//! Walking the player toward a goal cell one tick at a time, along shortest paths.

use vstd::prelude::*;

use crate::behavior::navigation::{nav_step, shortest_first_step};
use crate::content::ContentRuntimeHooks;
use crate::entity::GridPos;
use crate::game::mode_input::line_logged;
use crate::game::movement::player_stepped;
use crate::game::state::{lemma_lines_push, Game};
use crate::step_pacing::{spec_step_ticks, visual_step_cooldown_ticks_from_speed};

verus! {

/// `after` is `before` with the walk, its pacing and any queued action dropped.
pub open spec fn walk_cleared<H: ContentRuntimeHooks>(before: &Game<H>, after: &Game<H>) -> bool {
    &&& after.player_walk_path@.len() == 0
    &&& *after == (Game {
        player_walk_path: after.player_walk_path,
        player_walk_goal: None,
        player_walk_tick_cooldown: 0,
        pending_player_action: None,
        ..*before
    })
}

/// `after` follows `before` once the player was sent toward `goal`: already there, the
/// walk is dropped; when no path leads there, a line says so and the walk is dropped;
/// otherwise the walk heads for `goal` (which it reaches one shortest-path step at a time).
/// Without a placed player nothing changes.
pub open spec fn walk_goal_set<H: ContentRuntimeHooks>(before: &Game<H>, after: &Game<H>, goal: GridPos) -> bool {
    match (before.entities.player, before.spec_player_pos()) {
        (Some(pid), Some(start)) => if start == goal {
            walk_cleared(before, after)
        } else if nav_step(&before.map, &before.entities, pid, start, goal) is None {
            exists|mid: Game<H>| #[trigger] line_logged(before, &mid, "No viable path to target."@) && walk_cleared(&mid, after)
        } else {
            &&& *after == (Game { player_walk_path: after.player_walk_path, player_walk_goal: Some(goal), ..*before })
            &&& after.player_walk_path@ == seq![goal]
        },
        _ => *after == *before,
    }
}

/// `after` follows `before` once the walk was planned afresh: the waypoints are dropped
/// and, when there is a goal, the player is sent toward it again (see [`walk_goal_set`]).
pub open spec fn walk_replanned<H: ContentRuntimeHooks>(before: &Game<H>, after: &Game<H>) -> bool {
    exists|mid: Game<H>|
        #![trigger mid.player_walk_path]
        mid == (Game { player_walk_path: mid.player_walk_path, ..*before }) && mid.player_walk_path@.len() == 0 && match before.player_walk_goal {
            Some(g) => walk_goal_set(&mid, after, g),
            None => *after == mid,
        }
}

/// `after` follows `g1`, where the player just stepped onto `next` on the way to the first
/// waypoint: a reached waypoint is dropped, the pacing restarts from the player's speed
/// (0 without stats), and with no waypoint left the goal is forgotten.
pub open spec fn walk_advanced<H: ContentRuntimeHooks>(g1: &Game<H>, after: &Game<H>, next: GridPos) -> bool {
    let path = if next == g1.player_walk_path@[0] { g1.player_walk_path@.drop_first() } else { g1.player_walk_path@ };
    &&& after.player_walk_path@ == path
    &&& *after == (Game {
        player_walk_path: after.player_walk_path,
        player_walk_tick_cooldown: match g1.spec_player_stats() {
            Some(st) => spec_step_ticks(st.speed) as u16,
            None => 0,
        },
        player_walk_goal: if path.len() == 0 { None } else { g1.player_walk_goal },
        ..*g1
    })
}

/// `after` follows `before` once the player's walk had its tick: off the exploration
/// screen the walk is dropped; while paced the pacing counts down; without waypoints the
/// goal is forgotten; without a placed player the walk is dropped; standing on the first
/// waypoint drops it; otherwise the player takes the first step of a shortest path to it
/// (see [`player_stepped`]) and the walk advances (see [`walk_advanced`]), or, when there
/// is no such step or the step fails, the walk is planned afresh (see [`walk_replanned`]).
pub open spec fn walk_stepped<H: ContentRuntimeHooks>(before: &Game<H>, after: &Game<H>) -> bool {
    let s = before.modes.stack@;
    let path = before.player_walk_path@;
    if !(s.len() > 0 && s.last() is Exploration) {
        walk_cleared(before, after)
    } else if before.player_walk_tick_cooldown > 0 {
        *after == (Game { player_walk_tick_cooldown: (before.player_walk_tick_cooldown - 1) as u16, ..*before })
    } else if path.len() == 0 {
        *after == (Game { player_walk_goal: None, ..*before })
    } else {
        match (before.entities.player, before.spec_player_pos()) {
            (Some(pid), Some(cur)) => if path[0] == cur {
                &&& after.player_walk_path@ == path.drop_first()
                &&& *after == (Game {
                    player_walk_path: after.player_walk_path,
                    player_walk_goal: if path.len() == 1 { None } else { before.player_walk_goal },
                    ..*before
                })
            } else {
                match nav_step(&before.map, &before.entities, pid, cur, path[0]) {
                    None => walk_replanned(before, after),
                    Some(next) => exists|g1: Game<H>, moved: bool|
                        #[trigger] player_stepped(before, &g1, (next.x - cur.x) as i32, (next.y - cur.y) as i32, moved) && if moved {
                            walk_advanced(&g1, after, next)
                        } else {
                            walk_replanned(&g1, after)
                        },
                }
            },
            _ => walk_cleared(before, after),
        }
    }
}

impl<H: ContentRuntimeHooks> Game<H> {
    /// Sends the player toward `goal` (see [`walk_goal_set`]).
    pub fn try_set_player_walk_goal(&mut self, goal: GridPos)
        requires
            old(self).wf(),
        ensures
            final(self).wf(),
            walk_goal_set(old(self), final(self), goal),
    {
        let pid = match self.entities.player {
            Some(p) => p,
            None => {
                return;
            },
        };
        let start = match self.entities.pos(pid) {
            Some(p) => p,
            None => {
                return;
            },
        };
        if start == goal {
            self.clear_player_walk();
            return;
        }
        match shortest_first_step(&self.map, &self.entities, pid, start, goal) {
            None => {
                let line = String::from_str("No viable path to target.");
                proof {
                    lemma_lines_push(self.log@, line);
                }
                self.log.push(line);
                let ghost mid = *self;
                assert(line_logged(old(self), &mid, "No viable path to target."@));
                self.clear_player_walk();
            },
            Some(_) => {
                self.player_walk_path.clear();
                self.player_walk_path.push(goal);
                self.player_walk_goal = Some(goal);
                assert(self.player_walk_path@ =~= seq![goal]);
            },
        }
    }

    /// Plans the walk afresh (see [`walk_replanned`]).
    fn replan_walk_goal(&mut self)
        requires
            old(self).wf(),
        ensures
            final(self).wf(),
            walk_replanned(old(self), final(self)),
    {
        let goal = self.player_walk_goal;
        self.player_walk_path.clear();
        let ghost mid = *self;
        match goal {
            Some(g) => {
                self.try_set_player_walk_goal(g);
            },
            None => {},
        }
        assert(mid == (Game { player_walk_path: mid.player_walk_path, ..*old(self) }));
    }

    /// One tick of the player's walk (see [`walk_stepped`]).
    pub fn step_player_walk(&mut self)
        requires
            old(self).wf(),
        ensures
            final(self).wf(),
            walk_stepped(old(self), final(self)),
    {
        let explore = match self.modes.current() {
            Some(crate::game::modes::GameMode::Exploration) => true,
            _ => false,
        };
        if !explore {
            self.clear_player_walk();
            return;
        }
        if self.player_walk_tick_cooldown > 0 {
            self.player_walk_tick_cooldown = self.player_walk_tick_cooldown - 1;
            return;
        }
        if self.player_walk_path.len() == 0 {
            self.player_walk_goal = None;
            return;
        }
        let pid = match self.entities.player {
            Some(p) => p,
            None => {
                self.clear_player_walk();
                return;
            },
        };
        let cur = match self.entities.pos(pid) {
            Some(p) => p,
            None => {
                self.clear_player_walk();
                return;
            },
        };
        let waypoint = self.player_walk_path[0];
        if waypoint == cur {
            let ghost p0 = self.player_walk_path@;
            self.player_walk_path.remove(0);
            assert(self.player_walk_path@ =~= p0.drop_first());
            if self.player_walk_path.len() == 0 {
                self.player_walk_goal = None;
            }
            return;
        }
        let next = match shortest_first_step(&self.map, &self.entities, pid, cur, waypoint) {
            Some(n) => n,
            None => {
                self.replan_walk_goal();
                return;
            },
        };
        let dx = next.x - cur.x;
        let dy = next.y - cur.y;
        let moved = self.try_move_player_step(dx, dy);
        let ghost g1 = *self;
        assert(player_stepped(old(self), &g1, dx, dy, moved));
        if moved {
            if next == self.player_walk_path[0] {
                let ghost p0 = self.player_walk_path@;
                self.player_walk_path.remove(0);
                assert(self.player_walk_path@ =~= p0.drop_first());
            }
            let cd: u16 = match self.player_stats() {
                Some(st) => visual_step_cooldown_ticks_from_speed(st.speed),
                None => 0,
            };
            self.player_walk_tick_cooldown = cd;
            if self.player_walk_path.len() == 0 {
                self.player_walk_goal = None;
            }
            assert(walk_advanced(&g1, &*self, next));
            return;
        }
        self.replan_walk_goal();
    }
}

} // verus!
