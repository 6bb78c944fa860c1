//! The running game: world, narrative and mode stack, with the bookkeeping that one game
//! tick performs around them.

use vstd::prelude::*;

use crate::combat::{speeds_bounded, CombatState, CombatStateView, EncounterOutcomePolicy, PendingHit};
use crate::content::{ContentPack, ContentRuntimeHooks, HostileTriggerDef, Relation};
use crate::entity::{ActorStats, EntityArena, EntityId, GridPos};
use crate::math::{chebyshev, clamp_i32, spec_chebyshev};
use crate::narrative::NarrativeState;
use crate::world::{cell_visible, compute_visible, merge_explored, MapGrid};
use crate::behavior::relation::spec_relation_to_player;
use super::actions::ActionCommand;
use super::effects::{ActiveAreaEffect, AreaEffect};
use super::key_commands::{key_layer_for_mode, spec_key_layer_for_mode, GameInput, GameKeyMap};
use crate::input::InputEvent;
use super::modes::{GameMode, GameModeStack};
use super::projectile::Projectile;

verus! {

/// The text of each log line.
pub open spec fn lines(v: Seq<String>) -> Seq<Seq<char>> {
    v.map_values(|s: String| s@)
}

pub proof fn lemma_lines_push(v: Seq<String>, s: String)
    ensures
        lines(v.push(s)) == lines(v).push(s@),
{
    assert(lines(v.push(s)) =~= lines(v).push(s@));
}

/// The stack after its top is removed (unchanged when empty).
pub open spec fn popped<T>(s: Seq<T>) -> Seq<T> {
    if s.len() > 0 { s.drop_last() } else { s }
}

/// The active mode is an encounter.
pub open spec fn in_combat(s: Seq<super::modes::GameMode>) -> bool {
    s.len() > 0 && s.last() is Combat
}

/// Appends `line` to `log`.
pub fn log_line(log: &mut Vec<String>, line: &str)
    ensures
        lines(final(log)@) == lines(old(log)@).push(line@),
{
    let s = line.to_owned();
    proof { lemma_lines_push(log@, s); }
    log.push(s);
}

/// A training spar against `trainer` ended and both fighters have stats: the epilogue
/// dialogue is due.
pub open spec fn epilogue_due<H: ContentRuntimeHooks>(game: &Game<H>, state: CombatStateView) -> bool {
    &&& game.entities.player matches Some(pid)
    &&& state.profile.outcome_policy matches EncounterOutcomePolicy::TrainingSpar { trainer }
    &&& trainer != pid
    &&& game.entities.spec_stats(pid) is Some
    &&& game.entities.spec_stats(trainer) is Some
}

/// Stats the player starts a new game with.
pub fn player_default_stats() -> (s: ActorStats)
    ensures
        s == (ActorStats { hp: 24, max_hp: 24, strength: 7, agility: 6, speed: 20 }),
{
    ActorStats::from_full(24, 24, 7, 6, 20)
}

/// Cell `(x, y)` of a `w`-by-`h` map lies in the named region: the north-east quarter is
/// the tavern approach (the boundary scales with the map).
pub open spec fn in_tavern_approach(x: int, y: int, w: int, h: int) -> bool {
    x * 4 >= w * 3 && y * 4 <= h
}

/// Sight radius of the player, in cells.
pub const FOW_RADIUS: i32 = 20;

/// `v` grown to at least `n` entries with `false`.
pub open spec fn grown(v: Seq<bool>, n: int) -> Seq<bool> {
    if v.len() >= n { v } else { v + Seq::new((n - v.len()) as nat, |i: int| false) }
}

/// `after` is `before` with the player's view recomputed: every map cell is visible
/// exactly when it lies within [`FOW_RADIUS`] of the player with a clear line of sight,
/// and visible cells become explored (nothing changes without a placed player).
pub open spec fn fow_refreshed<H: ContentRuntimeHooks>(before: &Game<H>, after: &Game<H>) -> bool {
    match before.spec_player_pos() {
        None => *after == *before,
        Some(p) => {
            let n = before.map.tiles@.len() as int;
            let vis0 = grown(before.visible@, n);
            let exp0 = grown(before.explored@, n);
            &&& *after == (Game { visible: after.visible, explored: after.explored, ..*before })
            &&& after.visible@.len() == vis0.len()
            &&& after.explored@.len() == exp0.len()
            &&& forall|i: int|
                0 <= i < vis0.len() ==> #[trigger] after.visible@[i] == if i < n {
                    cell_visible(&before.map, p, FOW_RADIUS as int, i)
                } else {
                    vis0[i]
                }
            &&& forall|i: int|
                0 <= i < exp0.len() ==> #[trigger] after.explored@[i] == (exp0[i] || (i < vis0.len()
                    && after.visible@[i]))
        },
    }
}

fn grow(v: &mut Vec<bool>, n: usize)
    ensures
        final(v)@ == grown(old(v)@, n as int),
{
    let ghost v0 = v@;
    while v.len() < n
        invariant
            v0.len() <= v@.len(),
            v@.len() <= n || v@ == v0,
            v@.subrange(0, v0.len() as int) == v0,
            forall|i: int| v0.len() <= i < v@.len() ==> !#[trigger] v@[i],
        decreases n - v@.len(),
    {
        v.push(false);
    }
    assert(v@ =~= grown(v0, n as int));
}

/// A dialogue to open as soon as exploration resumes.
#[derive(Clone, Debug)]
pub struct PendingForcedDialogue {
    pub npc: EntityId,
    pub node_id: String,
}

/// The whole game state. `H` supplies the content's game-specific hooks.
pub struct Game<H: ContentRuntimeHooks> {
    pub modes: GameModeStack,
    pub map: MapGrid,
    pub entities: EntityArena,
    /// Cells the player has seen, row-major.
    pub explored: Vec<bool>,
    /// Cells the player sees now, row-major.
    pub visible: Vec<bool>,
    pub narrative: NarrativeState,
    pub content: ContentPack,
    pub hooks: H,
    pub rng_seed: u64,
    pub log: Vec<String>,
    pub menu_items: Vec<&'static str>,
    pub quit_requested: bool,
    pub debug_overlay: bool,
    /// Counts game ticks (animated terrain and effects).
    pub surface_tick: u64,
    pub player_walk_path: Vec<GridPos>,
    pub player_walk_goal: Option<GridPos>,
    pub player_walk_tick_cooldown: u16,
    /// While above 0, the NPC combat AI waits.
    pub npc_combat_ai_tick_cooldown: u16,
    /// While above 0, exploration NPCs wait.
    pub npc_exploration_ai_tick_cooldown: u16,
    pub pending_forced_dialogue: Option<PendingForcedDialogue>,
    pub pending_player_action: Option<ActionCommand>,
    /// Turn clock of an overworld turn-based session held outside the mode stack.
    pub turn_clock: Option<CombatState>,
    pub key_map: GameKeyMap,
    /// Arrows and melee flashes in flight.
    pub active_projectiles: Vec<Projectile>,
    /// Attacks whose damage lands once their animation completes.
    pub pending_hits: Vec<PendingHit>,
    pub active_area_effects: Vec<ActiveAreaEffect>,
    /// Ticks until the fireball can be cast again.
    pub fireball_cooldown_ticks: u16,
}

impl<H: ContentRuntimeHooks> Game<H> {
    /// The named region cell `(x, y)` lies in, if any (see [`in_tavern_approach`]).
    pub fn maybe_region_id_for_pos(&self, x: i32, y: i32) -> (r: Option<&'static str>)
        ensures
            match r {
                Some(id) => id@ == "tavern_approach"@ && in_tavern_approach(
                    x as int,
                    y as int,
                    self.map.width as int,
                    self.map.height as int,
                ),
                None => !in_tavern_approach(x as int, y as int, self.map.width as int, self.map.height as int),
            },
    {
        let w = self.map.width as i64;
        let h = self.map.height as i64;
        if x as i64 * 4 >= w * 3 && y as i64 * 4 <= h {
            proof { reveal_strlit("tavern_approach"); }
            return Some("tavern_approach");
        }
        None
    }

    /// The entity store is well formed, the map is well formed, and speeds are in range.
    pub open spec fn wf(&self) -> bool {
        &&& self.entities.wf()
        &&& self.map.wf()
        &&& speeds_bounded(&self.entities)
    }

    pub open spec fn spec_player_pos(&self) -> Option<GridPos> {
        match self.entities.player {
            Some(p) => self.entities.spec_pos(p),
            None => None,
        }
    }

    pub open spec fn spec_player_stats(&self) -> Option<ActorStats> {
        match self.entities.player {
            Some(p) => self.entities.spec_stats(p),
            None => None,
        }
    }

    pub fn player_id(&self) -> (r: Option<EntityId>)
        ensures
            r == self.entities.player,
    {
        self.entities.player
    }

    pub fn player_pos(&self) -> (r: Option<GridPos>)
        ensures
            r == self.spec_player_pos(),
    {
        match self.entities.player {
            Some(p) => self.entities.pos(p),
            None => None,
        }
    }

    pub fn player_stats(&self) -> (r: Option<ActorStats>)
        ensures
            r == self.spec_player_stats(),
    {
        match self.entities.player {
            Some(p) => self.entities.stats(p),
            None => None,
        }
    }

    /// Relation of `other` toward the player (neutral without a player).
    pub open spec fn spec_relation_to_player(&self, other: EntityId) -> Relation {
        match self.entities.player {
            Some(pid) => spec_relation_to_player(&self.content, &self.entities, pid, other),
            None => Relation::Neutral,
        }
    }

    /// Relation of `other` toward the player: allied for the player itself, the blueprint's
    /// disposition for actors, neutral otherwise.
    pub fn relation_to_player(&self, other: EntityId) -> (r: Relation)
        ensures
            r == self.spec_relation_to_player(other),
    {
        let pid = match self.entities.player {
            Some(p) => p,
            None => { return Relation::Neutral; },
        };
        if other.0 == pid.0 {
            return Relation::Allied;
        }
        match crate::behavior::relation::blueprint_of(&self.content, &self.entities, other) {
            Some(bp) => match bp.disposition_to_player {
                crate::content::Disposition::Friendly => Relation::Friendly,
                crate::content::Disposition::Neutral => Relation::Neutral,
                crate::content::Disposition::Hostile => Relation::Hostile,
            },
            None => Relation::Neutral,
        }
    }

    pub fn is_hostile_to_player(&self, other: EntityId) -> (b: bool)
        ensures
            b == (self.spec_relation_to_player(other) == Relation::Hostile),
    {
        matches!(self.relation_to_player(other), Relation::Hostile)
    }

    /// The player and `eid` both stand somewhere and `trigger` holds between them.
    pub open spec fn spec_hostile_trigger_met(&self, eid: EntityId, trigger: HostileTriggerDef) -> bool {
        &&& self.spec_player_pos() matches Some(pp)
        &&& self.entities.spec_pos(eid) matches Some(ep)
        &&& match trigger {
            HostileTriggerDef::PlayerWithinChebyshev { range } => spec_chebyshev(pp, ep) <= range,
        }
    }

    pub fn hostile_trigger_met(&self, eid: EntityId, trigger: HostileTriggerDef) -> (b: bool)
        ensures
            b == self.spec_hostile_trigger_met(eid, trigger),
    {
        let pp = match self.player_pos() {
            Some(p) => p,
            None => { return false; },
        };
        let ep = match self.entities.pos(eid) {
            Some(p) => p,
            None => { return false; },
        };
        match trigger {
            HostileTriggerDef::PlayerWithinChebyshev { range } => {
                let d = chebyshev(pp, ep);
                proof {
                    assert(clamp_i32(spec_chebyshev(pp, ep)) <= range <==> spec_chebyshev(pp, ep) <= range);
                }
                d <= range as i32
            },
        }
    }

    /// After a training spar, queues the trainer's epilogue dialogue at the node that the
    /// hooks pick from both fighters' final hit points.
    pub fn schedule_training_spar_epilogue(&mut self, state: &CombatState)
        ensures
            epilogue_due(old(self), state@) ==> {
                &&& final(self).pending_forced_dialogue matches Some(p)
                &&& state.profile.outcome_policy matches EncounterOutcomePolicy::TrainingSpar { trainer }
                &&& p.npc == trainer
            },
            !epilogue_due(old(self), state@) ==> final(self).pending_forced_dialogue
                == old(self).pending_forced_dialogue,
            *final(self) == (Game { pending_forced_dialogue: final(self).pending_forced_dialogue, ..*old(self) }),
    {
        let pid = match self.entities.player {
            Some(p) => p,
            None => { return; },
        };
        let trainer = match state.profile.outcome_policy {
            EncounterOutcomePolicy::TrainingSpar { trainer } => trainer,
            _ => { return; },
        };
        if trainer.0 == pid.0 {
            return;
        }
        let ps = match self.entities.stats(pid) {
            Some(s) => s,
            None => { return; },
        };
        let ts = match self.entities.stats(trainer) {
            Some(s) => s,
            None => { return; },
        };
        let node_id = self.hooks.training_spar_epilogue_node(ps.hp, ts.hp);
        self.pending_forced_dialogue = Some(PendingForcedDialogue { npc: trainer, node_id: node_id.to_owned() });
    }

    /// Recomputes what the player sees (see [`fow_refreshed`]).
    pub fn refresh_fow(&mut self)
        requires
            old(self).wf(),
        ensures
            final(self).wf(),
            fow_refreshed(old(self), final(self)),
    {
        let p = match self.player_pos() {
            Some(p) => p,
            None => { return; },
        };
        let n = self.map.tiles.len();
        grow(&mut self.visible, n);
        grow(&mut self.explored, n);
        compute_visible(&self.map, p.x, p.y, FOW_RADIUS, &mut self.visible);
        merge_explored(&self.visible, &mut self.explored);
    }

    /// The game input an event stands for: a key resolves through the top mode's binding
    /// layer (an unbound key passes through unchanged on the dialogue screen, which picks
    /// choices by digit, and is dropped elsewhere), pointer events pass through, resizes are
    /// dropped.
    pub open spec fn spec_resolve_game_input(&self, ev: InputEvent) -> Option<GameInput> {
            match ev {
                InputEvent::Key(ch) => match self.key_map.spec_resolve(
                    spec_key_layer_for_mode(
                        if self.modes.stack@.len() > 0 {
                            Some(&self.modes.stack@.last())
                        } else {
                            None
                        },
                    ),
                    ch,
                ) {
                    Some(c) => Some(GameInput::Command(c)),
                    None => if self.modes.stack@.len() > 0 && self.modes.stack@.last() is Dialogue {
                        Some(GameInput::Raw(ev))
                    } else {
                        None
                    },
                },
                InputEvent::Resize { .. } => None,
                _ => Some(GameInput::Raw(ev)),
            }
    }

    /// The game input an event stands for (see [`Game::spec_resolve_game_input`]).
    pub fn resolve_game_input(&self, ev: &InputEvent) -> (r: Option<GameInput>)
        ensures
            r == self.spec_resolve_game_input(*ev),
    {
        match *ev {
            InputEvent::Key(ch) => {
                let layer = key_layer_for_mode(self.modes.current());
                match self.key_map.resolve(layer, ch) {
                    Some(c) => Some(GameInput::Command(c)),
                    None => match self.modes.current() {
                        Some(GameMode::Dialogue { .. }) => Some(GameInput::Raw(*ev)),
                        _ => None,
                    },
                }
            },
            InputEvent::Resize { .. } => None,
            _ => Some(GameInput::Raw(*ev)),
        }
    }

    /// Adds an area effect living `remaining_ticks` ticks (`u32::MAX`: permanently).
    pub fn trigger_area_effect(&mut self, effect: AreaEffect, remaining_ticks: u32)
        ensures
            final(self).active_area_effects@ == old(self).active_area_effects@.push(
                ActiveAreaEffect { effect, remaining_ticks },
            ),
            *final(self) == (Game { active_area_effects: final(self).active_area_effects, ..*old(self) }),
    {
        self.active_area_effects.push(ActiveAreaEffect { effect, remaining_ticks });
    }

    /// Forgets the player's walk target and any queued action.
    pub fn clear_player_walk(&mut self)
        ensures
            final(self).player_walk_path@.len() == 0,
            final(self).player_walk_goal is None,
            final(self).player_walk_tick_cooldown == 0,
            final(self).pending_player_action is None,
            *final(self) == (Game {
                player_walk_path: final(self).player_walk_path,
                player_walk_goal: None,
                player_walk_tick_cooldown: 0,
                pending_player_action: None,
                ..*old(self)
            }),
    {
        self.player_walk_path.clear();
        self.player_walk_goal = None;
        self.player_walk_tick_cooldown = 0;
        self.pending_player_action = None;
    }
}

} // verus!
