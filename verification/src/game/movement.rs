//! Exploring on foot: what stops a step of the player, who it talks to instead, what it
//! picks up where it lands and which region it enters, and the keys of the exploration
//! screen.

use vstd::prelude::*;

use crate::behavior::relation::{blueprint_of, spec_blueprint_for};
use crate::combat::speeds_bounded;
use crate::content::ContentRuntimeHooks;
use crate::entity::{EntityArena, EntityId, GridPos};
use crate::game::combat_input::step_delta;
use crate::game::dialogue_input::dialogue_started;
use crate::game::interaction::{probe_interaction, spec_probe_interaction, talk_best_upto, InteractionOutcome};
use crate::game::key_commands::{GameCommand, GameInput};
use crate::game::player_actions::exploration_clicked;
use crate::game::walk::walk_goal_set;
use crate::input::{InputEvent, MouseButton};
use crate::game::mode_input::{debug_toggled, modes_set};
use crate::game::modes::GameMode;
use crate::game::services::combat::{toggle_turn_based, turn_session_entered};
use crate::game::state::{fow_refreshed, in_tavern_approach, Game};
use crate::game::transfer::{stacks_added, transfer_opened};
use crate::narrative::NarrativeState;
use crate::content::ContentPack;
use crate::text::decimal;

verus! {

/// Slot `j` is an item lying on `p` that `player` picks up there: a live slot on that
/// cell, not the player, not an actor, not a container, holding a stack.
pub open spec fn pickable(e: &EntityArena, player: EntityId, p: GridPos, j: int) -> bool {
    &&& e.occupies(j, p.x, p.y)
    &&& j != player.0 as int
    &&& e.npc_kind@[j] is None
    &&& !e.is_container@[j]
    &&& e.item@[j] is Some
}

/// `after` is `before` with the items among the first `k` slots that `player` picks up
/// on `p` removed, every other slot kept.
pub open spec fn items_taken_upto(before: &EntityArena, after: &EntityArena, player: EntityId, p: GridPos, k: int) -> bool {
    &&& after.wf()
    &&& after.len() == before.len()
    &&& after.next_id == before.next_id
    &&& after.player == before.player
    &&& forall|j: int|
        0 <= j < before.len() && j < k && pickable(before, player, p, j) ==> #[trigger] after.slot_is_default(j)
    &&& forall|j: int|
        0 <= j < before.len() && !(j < k && pickable(before, player, p, j)) ==> #[trigger] after.same_slot(before, j)
}

/// Slot `j` is processed by a pickup of `player` on `p`: when it holds an item the player
/// picks up there, the narrative `h` handed to the item hook is `n0` with that stack added
/// to the inventory (see [`stacks_added`]) and the hook leaves `n1`; otherwise nothing
/// changes (`h` and `n1` are `n0`).
pub open spec fn pick_step(
    e: &EntityArena,
    player: EntityId,
    p: GridPos,
    j: int,
    n0: NarrativeState,
    h: NarrativeState,
    n1: NarrativeState,
) -> bool {
    if pickable(e, player, p, j) {
        let st = e.item@[j]->0;
        &&& h == (NarrativeState { inventory: h.inventory, ..n0 })
        &&& stacks_added(n0.inventory.stacks@, h.inventory.stacks@, st.id@, st.count)
    } else {
        n1 == n0 && h == n0
    }
}

/// `ns` are the narratives before each of the first `k` slots of `e` is processed (and
/// after the last), `hs` those handed to the item hook (see [`pick_step`]).
pub open spec fn picks_traced(
    e: &EntityArena,
    player: EntityId,
    p: GridPos,
    ns: Seq<NarrativeState>,
    hs: Seq<NarrativeState>,
    k: int,
) -> bool {
    &&& ns.len() == k + 1
    &&& hs.len() == k
    &&& forall|j: int| 0 <= j < k ==> #[trigger] pick_step(e, player, p, j, ns[j], hs[j], ns[j + 1])
}

/// `after` follows `before` once `player` picked up what lies on its cell: every such item
/// leaves the map and its stack is added to the inventory (see [`picks_traced`]); the item
/// hook of `H` then runs for it (it may change the narrative and the log as it likes) and
/// a line says what was picked up; with nothing there nothing changes.
pub open spec fn picked_up<H: ContentRuntimeHooks>(before: &Game<H>, after: &Game<H>, player: EntityId) -> bool {
    match before.entities.spec_pos(player) {
        None => *after == *before,
        Some(p) => {
            &&& *after == (Game { entities: after.entities, narrative: after.narrative, log: after.log, ..*before })
            &&& items_taken_upto(&before.entities, &after.entities, player, p, before.entities.len() as int)
            &&& (forall|j: int| 0 <= j < before.entities.len() ==> !#[trigger] pickable(&before.entities, player, p, j))
                ==> *after == *before
            &&& exists|ns: Seq<NarrativeState>, hs: Seq<NarrativeState>|
                #[trigger] picks_traced(&before.entities, player, p, ns, hs, before.entities.len() as int) && ns[0]
                    == before.narrative && ns.last() == after.narrative
        },
    }
}

/// `after` follows `before` once the player entered `(x, y)`: in a named region (see
/// [`in_tavern_approach`]) the region hook of `H` runs (it may change the narrative and the
/// log; a failure is logged), elsewhere nothing changes.
pub open spec fn region_entered<H: ContentRuntimeHooks>(before: &Game<H>, after: &Game<H>, x: i32, y: i32) -> bool {
    if in_tavern_approach(x as int, y as int, before.map.width as int, before.map.height as int) {
        *after == (Game { narrative: after.narrative, log: after.log, ..*before })
    } else {
        *after == *before
    }
}

/// Slot `j` is an actor whose blueprint has a dialogue.
pub open spec fn can_talk<H: ContentRuntimeHooks>(g: &Game<H>, j: int) -> bool {
    spec_blueprint_for(&g.content, &g.entities, EntityId(j as u32)) matches Some(bp) && bp.dialogue_id is Some
}

/// A live slot other than `player`'s that blocks movement stands on `(x, y)`.
pub open spec fn blocked_by_occupant(e: &EntityArena, player: EntityId, x: i32, y: i32) -> bool {
    exists|j: int| 0 <= j < e.len() && #[trigger] e.occupies(j, x, y) && j != player.0 as int && e.blocks_movement@[j]
}

/// A step by `(dx, dy)` from the player's cell stays within `i32`.
pub open spec fn step_fits<H: ContentRuntimeHooks>(g: &Game<H>, dx: i32, dy: i32) -> bool {
    g.spec_player_pos() matches Some(p) ==> i32::MIN <= p.x + dx <= i32::MAX && i32::MIN <= p.y + dy <= i32::MAX
}

/// `g1` is `before` with the player `pid` standing on `to`.
pub open spec fn player_placed<H: ContentRuntimeHooks>(before: &Game<H>, g1: &Game<H>, pid: EntityId, to: GridPos) -> bool {
    &&& *g1 == (Game { entities: g1.entities, ..*before })
    &&& g1.entities == (EntityArena { position: g1.entities.position, ..before.entities })
    &&& g1.entities.position@ == before.entities.position@.update(pid.0 as int, Some(to))
}

/// `after` follows `before` once the player tried to step by `(dx, dy)`, and `moved` says
/// whether it did: without a player or a position, off the map or into a blocking tile
/// nothing happens; into an actor other than itself it does not move and talks to it when
/// its blueprint has a dialogue; onto a cell that another blocking entity holds nothing
/// happens; otherwise it moves there, picks up what lies there (see [`picked_up`]), enters
/// the region there (see [`region_entered`]) and its view is refreshed.
pub open spec fn player_stepped<H: ContentRuntimeHooks>(before: &Game<H>, after: &Game<H>, dx: i32, dy: i32, moved: bool) -> bool {
    match (before.entities.player, before.spec_player_pos()) {
        (Some(pid), Some(p)) => {
            let nx = (p.x + dx) as i32;
            let ny = (p.y + dy) as i32;
            let occ = before.entities.spec_first_npc_at(nx, ny);
            if !before.map.spec_in_bounds(nx as int, ny as int) || before.map.spec_blocks_movement(nx as int, ny as int) {
                !moved && *after == *before
            } else if occ is Some && occ->0 != pid.0 as int {
                &&& !moved
                &&& if can_talk(before, occ->0) {
                    exists|s: int| #[trigger] dialogue_started(before, after, EntityId(occ->0 as u32), s)
                } else {
                    *after == *before
                }
            } else if blocked_by_occupant(&before.entities, pid, nx, ny) {
                !moved && *after == *before
            } else {
                &&& moved
                &&& exists|g1: Game<H>, g2: Game<H>, g3: Game<H>|
                    #![trigger player_placed(before, &g1, pid, GridPos { x: nx, y: ny }), picked_up(&g1, &g2, pid), region_entered(&g2, &g3, nx, ny)]
                    player_placed(before, &g1, pid, GridPos { x: nx, y: ny }) && picked_up(&g1, &g2, pid)
                        && region_entered(&g2, &g3, nx, ny) && fow_refreshed(&g3, after)
            }
        },
        _ => !moved && *after == *before,
    }
}

/// `after` follows `before` once the player's walk was dropped and it tried to step by
/// `(dx, dy)` (see [`player_stepped`]).
pub open spec fn player_moved<H: ContentRuntimeHooks>(before: &Game<H>, after: &Game<H>, dx: i32, dy: i32) -> bool {
    exists|mid: Game<H>, moved: bool|
        #![trigger player_stepped(&mid, after, dx, dy, moved)]
        mid == (Game {
            player_walk_path: mid.player_walk_path,
            player_walk_goal: None,
            player_walk_tick_cooldown: 0,
            pending_player_action: None,
            ..*before
        }) && mid.player_walk_path@.len() == 0 && player_stepped(&mid, after, dx, dy, moved)
}

/// `after` follows `before` once the player used the interact key: an adjacent container
/// opens the transfer screen on top (an empty inventory is made for it when it has none),
/// else the nearest NPC to talk to opens its dialogue (see [`spec_probe_interaction`] and
/// [`dialogue_started`]); with nothing near, or without a placed player, nothing changes.
pub open spec fn interacted<H: ContentRuntimeHooks>(before: &Game<H>, after: &Game<H>) -> bool {
    match before.spec_player_pos() {
        None => *after == *before,
        Some(pp) => match spec_probe_interaction(&before.entities, pp, &before.content) {
            InteractionOutcome::Container(c) => transfer_opened(before, after, c),
            InteractionOutcome::Dialogue(npc) => exists|s: int| #[trigger] dialogue_started(before, after, npc, s),
            InteractionOutcome::Nothing => *after == *before,
        },
    }
}

proof fn lemma_talk_best_in_range(entities: &EntityArena, content: &ContentPack, p: GridPos, n: int)
    requires
        0 <= n <= 0x1_0000_0000,
    ensures
        talk_best_upto(entities, content, p, n) matches Some(b) ==> 0 <= b.1.0 < n,
    decreases n,
{
    if n > 0 {
        lemma_talk_best_in_range(entities, content, p, n - 1);
    }
}

/// `after` (and the view shift `pan` asked of the shell) follows `before`, whose top mode
/// is exploration, on input `ev`:
/// - the debug toggle flips the overlay;
/// - confirm (the interact key) talks or opens a container (see [`interacted`]);
/// - the inventory and the journal open on top, their cursors on the first entry;
/// - the turn-based toggle starts a turn-based session (see [`turn_session_entered`]);
/// - a step command shifts the view when the map is larger than it (`view_pans`),
///   otherwise the player steps (see [`player_moved`]);
/// - a left click on the world cell `pointer` (as the screen layout reports it) acts on it
///   (see [`exploration_clicked`]), a right click sends the player walking there (see
///   [`walk_goal_set`]);
/// - anything else changes nothing (the quick save keys are passed to the shell, see
///   [`crate::game::frame::routed`]).
pub open spec fn explore_handled<H: ContentRuntimeHooks>(
    before: &Game<H>,
    after: &Game<H>,
    ev: GameInput,
    view_pans: bool,
    pointer: Option<GridPos>,
    pan: Option<(i32, i32)>,
) -> bool {
    match ev {
        GameInput::Command(GameCommand::ToggleDebug) => pan is None && debug_toggled(before, after),
        GameInput::Command(GameCommand::Confirm) => pan is None && interacted(before, after),
        GameInput::Raw(InputEvent::MouseDown { button: MouseButton::Left, .. }) => pan is None && match pointer {
            Some(wp) => exploration_clicked(before, after, wp),
            None => *after == *before,
        },
        GameInput::Raw(InputEvent::MouseDown { button: MouseButton::Right, .. }) => pan is None && match pointer {
            Some(wp) => walk_goal_set(before, after, wp),
            None => *after == *before,
        },
        GameInput::Command(GameCommand::OpenInventory) => pan is None && modes_set(
            before,
            after,
            before.modes.stack@.push(GameMode::Inventory { cursor: 0 }),
        ),
        GameInput::Command(GameCommand::OpenJournal) => pan is None && modes_set(
            before,
            after,
            before.modes.stack@.push(GameMode::Journal { quest_cursor: 0 }),
        ),
        GameInput::Command(GameCommand::ToggleTurnBased) => pan is None && turn_session_entered(before, after),
        GameInput::Command(c) => match step_delta(c) {
            Some(d) => if view_pans {
                pan == Some(d) && *after == *before
            } else {
                pan is None && player_moved(before, after, d.0, d.1)
            },
            None => pan is None && *after == *before,
        },
        GameInput::Raw(_) => pan is None && *after == *before,
    }
}

impl<H: ContentRuntimeHooks> Game<H> {
    /// Picks up the items on `player`'s cell (see [`picked_up`]).
    pub fn try_pickup_ground_items(&mut self, player: EntityId)
        requires
            old(self).wf(),
        ensures
            final(self).wf(),
            picked_up(old(self), final(self), player),
    {
        let p = match self.entities.pos(player) {
            Some(p) => p,
            None => {
                return;
            },
        };
        let ghost g0 = *self;
        let ghost mut ns: Seq<NarrativeState> = seq![self.narrative];
        let ghost mut hs: Seq<NarrativeState> = seq![];
        let n = self.entities.alive.len();
        let mut i: usize = 0;
        while i < n
            invariant
                self.wf(),
                g0.wf(),
                n == g0.entities.len(),
                i <= n,
                picks_traced(&g0.entities, player, p, ns, hs, i as int),
                ns[0] == g0.narrative,
                ns.last() == self.narrative,
                *self == (Game { entities: self.entities, narrative: self.narrative, log: self.log, ..g0 }),
                items_taken_upto(&g0.entities, &self.entities, player, p, i as int),
                (forall|j: int| 0 <= j < i ==> !#[trigger] pickable(&g0.entities, player, p, j)) ==> *self == g0,
            decreases n - i,
        {
            assert(self.entities.same_slot(&g0.entities, i as int));
            let here = match self.entities.position[i] {
                Some(q) => q == p,
                None => false,
            };
            let take = self.entities.alive[i] && here && i != player.0 as usize && self.entities.npc_kind[i].is_none()
                && !self.entities.is_container[i] && self.entities.item[i].is_some();
            assert(take == pickable(&g0.entities, player, p, i as int));
            let ghost mut handed = self.narrative;
            if take {
                let (id, count): (String, u32) = match &self.entities.item[i] {
                    Some(st) => (String::from_str(st.id.as_str()), st.count),
                    None => (String::new(), 0),
                };
                self.narrative.inventory.add(id.as_str(), count);
                proof {
                    handed = self.narrative;
                }
                let r = self.hooks.on_item_picked(id.as_str(), &mut self.narrative, &mut self.log);
                match r {
                    Err(e) => {
                        self.log.push(String::from_str("Pickup hook failed: ").concat(e.reason.as_str()));
                    },
                    Ok(()) => {},
                }
                let line = String::from_str("Picked up ").concat(id.as_str()).concat(" x").concat(
                    decimal(count as u64).as_str(),
                ).concat(".");
                self.log.push(line);
                let ghost e0 = self.entities;
                self.entities.despawn(EntityId(i as u32));
                proof {
                    assert forall|j: int| 0 <= j < self.entities.combat_stats@.len() implies #[trigger] self.entities.combat_stats@[j].speed
                        <= crate::combat::MAX_COMBAT_SPEED by {
                        if j != i as int {
                            assert(self.entities.same_slot(&e0, j));
                        }
                    }
                    assert forall|j: int| 0 <= j < n && j < i + 1 && pickable(&g0.entities, player, p, j) implies #[trigger] self.entities.slot_is_default(j) by {
                        if j != i as int {
                            assert(self.entities.same_slot(&e0, j));
                            assert(e0.slot_is_default(j));
                        }
                    }
                    assert forall|j: int| 0 <= j < n && !(j < i + 1 && pickable(&g0.entities, player, p, j)) implies #[trigger] self.entities.same_slot(&g0.entities, j) by {
                        assert(self.entities.same_slot(&e0, j));
                        assert(e0.same_slot(&g0.entities, j));
                    }
                }
            }
            proof {
                let ns0 = ns;
                let hs0 = hs;
                let h_j = handed;
                ns = ns.push(self.narrative);
                hs = hs.push(h_j);
                assert(pick_step(&g0.entities, player, p, i as int, ns0.last(), h_j, self.narrative));
                assert forall|j: int| 0 <= j < i + 1 implies #[trigger] pick_step(&g0.entities, player, p, j, ns[j], hs[j], ns[j + 1]) by {
                    if j < i {
                        assert(pick_step(&g0.entities, player, p, j, ns0[j], hs0[j], ns0[j + 1]));
                    }
                }
            }
            assert(self.entities.len() == g0.entities.len());
            assert(self.entities.next_id == g0.entities.next_id);
            assert(self.entities.player == g0.entities.player);
            assert(items_taken_upto(&g0.entities, &self.entities, player, p, i + 1));
            i = i + 1;
        }
        assert(speeds_bounded(&self.entities));
    }

    /// Tries to step the player by `(dx, dy)`; says whether it moved (see
    /// [`player_stepped`]).
    #[verifier::loop_isolation(false)]
    pub(crate) fn try_move_player_step(&mut self, dx: i32, dy: i32) -> (moved: bool)
        requires
            old(self).wf(),
            step_fits(old(self), dx, dy),
        ensures
            final(self).wf(),
            player_stepped(old(self), final(self), dx, dy, moved),
    {
        let pid = match self.entities.player {
            Some(p) => p,
            None => {
                return false;
            },
        };
        let p = match self.entities.pos(pid) {
            Some(p) => p,
            None => {
                return false;
            },
        };
        let nx = p.x + dx;
        let ny = p.y + dy;
        if !self.map.in_bounds(nx, ny) {
            return false;
        }
        if self.map.blocks_movement(nx, ny) {
            return false;
        }
        proof {
            crate::search::lemma_first_match(
                self.entities.len(),
                |j: int| self.entities.occupies(j, nx, ny) && self.entities.npc_kind@[j] is Some,
            );
        }
        match self.entities.first_npc_at(nx, ny) {
            Some(occ) => {
                if occ.0 != pid.0 {
                    let talk = match blueprint_of(&self.content, &self.entities, occ) {
                        Some(bp) => bp.dialogue_id.is_some(),
                        None => false,
                    };
                    if talk {
                        let s = self.start_dialogue(occ);
                        assert(dialogue_started(old(self), &*self, occ, s as int));
                    }
                    return false;
                }
            },
            None => {},
        }
        let n = self.entities.alive.len();
        let mut j: usize = 0;
        while j < n
            invariant
                self.wf(),
                n == self.entities.len(),
                j <= n,
                forall|k: int| 0 <= k < j ==> !(#[trigger] self.entities.occupies(k, nx, ny) && k != pid.0 as int && self.entities.blocks_movement@[k]),
            decreases n - j,
        {
            let here = match self.entities.position[j] {
                Some(q) => q.x == nx && q.y == ny,
                None => false,
            };
            if self.entities.alive[j] && here && j != pid.0 as usize && self.entities.blocks_movement[j] {
                assert(self.entities.occupies(j as int, nx, ny));
                return false;
            }
            j = j + 1;
        }
        let ghost g0 = *self;
        let to = GridPos { x: nx, y: ny };
        self.entities.set_pos(pid, to);
        let ghost g1 = *self;
        assert(g1.entities.position@ == g0.entities.position@.update(pid.0 as int, Some(to)));
        assert(player_placed(&g0, &g1, pid, to));
        proof {
            assert forall|k: int| 0 <= k < self.entities.combat_stats@.len() implies #[trigger] self.entities.combat_stats@[k].speed
                <= crate::combat::MAX_COMBAT_SPEED by {
                assert(g0.entities.combat_stats@[k].speed <= crate::combat::MAX_COMBAT_SPEED);
            }
        }
        self.try_pickup_ground_items(pid);
        let ghost g2 = *self;
        match self.maybe_region_id_for_pos(nx, ny) {
            Some(region) => {
                let r = self.hooks.on_region_enter(region, &mut self.narrative, &mut self.log);
                match r {
                    Err(e) => {
                        self.log.push(String::from_str("Region hook failed: ").concat(e.reason.as_str()));
                    },
                    Ok(()) => {},
                }
            },
            None => {},
        }
        let ghost g3 = *self;
        assert(region_entered(&g2, &g3, nx, ny));
        self.refresh_fow();
        assert(!blocked_by_occupant(&g0.entities, pid, nx, ny));
        assert(picked_up(&g1, &g2, pid));
        assert(fow_refreshed(&g3, &*self));
        true
    }

    /// Drops the player's walk and tries to step it by `(dx, dy)` (see [`player_moved`]).
    pub fn try_move_player(&mut self, dx: i32, dy: i32)
        requires
            old(self).wf(),
            step_fits(old(self), dx, dy),
        ensures
            final(self).wf(),
            player_moved(old(self), final(self), dx, dy),
    {
        self.clear_player_walk();
        let ghost mid = *self;
        let moved = self.try_move_player_step(dx, dy);
        assert(player_stepped(&mid, &*self, dx, dy, moved));
    }

    /// Talks to or opens what is near the player (see [`interacted`]).
    pub fn interact(&mut self)
        requires
            old(self).wf(),
        ensures
            final(self).wf(),
            interacted(old(self), final(self)),
    {
        let pp = match self.entities.player {
            Some(pid) => match self.entities.pos(pid) {
                Some(q) => q,
                None => {
                    return;
                },
            },
            None => {
                return;
            },
        };
        match probe_interaction(&self.entities, pp, &self.content) {
            InteractionOutcome::Container(c) => {
                self.start_item_transfer(c);
            },
            InteractionOutcome::Dialogue(npc) => {
                proof {
                    lemma_talk_best_in_range(&self.entities, &self.content, pp, self.entities.len());
                }
                let s = self.start_dialogue(npc);
                assert(dialogue_started(old(self), &*self, npc, s as int));
            },
            InteractionOutcome::Nothing => {},
        }
    }

    /// Keyboard input while exploring (see [`explore_handled`]). `view_pans` tells whether
    /// the map is larger than the view, so that step keys shift the view; the shift is
    /// returned for the shell to apply. `pointer` is the world cell under a pointer event.
    pub fn handle_explore(&mut self, ev: GameInput, view_pans: bool, pointer: Option<GridPos>) -> (pan: Option<(i32, i32)>)
        requires
            old(self).wf(),
            old(self).modes.stack@.len() > 0,
            old(self).modes.stack@.last() is Exploration,
            old(self).spec_player_pos() matches Some(p) ==> i32::MIN < p.x < i32::MAX && i32::MIN < p.y < i32::MAX,
        ensures
            final(self).wf(),
            explore_handled(old(self), final(self), ev, view_pans, pointer, pan),
    {
        let c = match ev {
            GameInput::Command(c) => c,
            GameInput::Raw(InputEvent::MouseDown { button: MouseButton::Left, .. }) => {
                match pointer {
                    Some(wp) => self.exploration_primary_click(wp),
                    None => {},
                }
                return None;
            },
            GameInput::Raw(InputEvent::MouseDown { button: MouseButton::Right, .. }) => {
                match pointer {
                    Some(wp) => self.try_set_player_walk_goal(wp),
                    None => {},
                }
                return None;
            },
            GameInput::Raw(_) => {
                return None;
            },
        };
        let d: Option<(i32, i32)> = match c {
            GameCommand::ToggleDebug => {
                self.debug_overlay = !self.debug_overlay;
                return None;
            },
            GameCommand::Confirm => {
                self.interact();
                return None;
            },
            GameCommand::OpenInventory => {
                self.modes.push(GameMode::Inventory { cursor: 0 });
                return None;
            },
            GameCommand::OpenJournal => {
                self.modes.push(GameMode::Journal { quest_cursor: 0 });
                return None;
            },
            GameCommand::ToggleTurnBased => {
                toggle_turn_based(self);
                return None;
            },
            GameCommand::StepNorth => Some((0, -1)),
            GameCommand::StepSouth => Some((0, 1)),
            GameCommand::StepWest => Some((-1, 0)),
            GameCommand::StepEast => Some((1, 0)),
            _ => None,
        };
        match d {
            Some((dx, dy)) => {
                if view_pans {
                    Some((dx, dy))
                } else {
                    self.try_move_player(dx, dy);
                    None
                }
            },
            None => None,
        }
    }
}

} // verus!
