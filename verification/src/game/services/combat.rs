//! Encounter services of the game: starting and ending encounters, hostile contact, and
//! the switch in and out of turn-based mode.

use vstd::prelude::*;

use crate::combat::{CombatStateView, rolled_encounter, seed_after, CombatRuleset, CombatState, EncounterOutcomePolicy, EncounterProfile};
use crate::behavior::relation::{blueprint_of, spec_blueprint_for};
use crate::behavior::threat::{is_actively_hostile_to_player_with, spec_actively_hostile};
use crate::content::{ContentRuntimeHooks, Relation};
use crate::entity::GridPos;
use crate::math::{chebyshev, clamp_i32, spec_chebyshev};
use crate::search::{first_match, lemma_first_match_is, lemma_first_match_none};
use crate::entity::{ActorStats, EntityArena, EntityId};
use crate::game::modes::GameMode;
use crate::game::state::{epilogue_due, in_combat, lines, log_line, popped, Game};

verus! {

/// Slot `j` is listed in `ids`.
pub open spec fn listed(ids: Seq<EntityId>, j: int) -> bool {
    exists|k: int| 0 <= k < ids.len() && ids[k].0 == j
}

/// `stats` with everyone listed in `ids` back at full health.
pub open spec fn healed(stats: Seq<ActorStats>, ids: Seq<EntityId>) -> Seq<ActorStats> {
    Seq::new(
        stats.len(),
        |j: int| if listed(ids, j) { ActorStats { hp: stats[j].max_hp, ..stats[j] } } else { stats[j] },
    )
}

/// There is a player and it is dead.
pub open spec fn player_dead<H: ContentRuntimeHooks>(game: &Game<H>) -> bool {
    match game.entities.player {
        Some(pid) => !game.entities.spec_is_alive(pid),
        None => false,
    }
}

/// `after` is `before` with an encounter among `participants` rolled from `before`'s
/// generator state and pushed as the active mode, and `message` logged.
pub open spec fn encounter_started<H: ContentRuntimeHooks>(
    before: &Game<H>,
    after: &Game<H>,
    participants: Seq<EntityId>,
    profile: EncounterProfile,
    message: Seq<char>,
) -> bool {
    &&& *after == (Game { modes: after.modes, rng_seed: after.rng_seed, log: after.log, ..*before })
    &&& after.rng_seed == seed_after(before.rng_seed, participants.len())
    &&& lines(after.log@) == lines(before.log@).push(message)
    &&& exists|s: CombatState|
        #![trigger rolled_encounter(s, &before.entities, participants, before.rng_seed, before.map.width, before.map.height, profile)]
        rolled_encounter(s, &before.entities, participants, before.rng_seed, before.map.width, before.map.height, profile)
            && after.modes.stack@ == before.modes.stack@.push(GameMode::Combat(s))
}

/// What [`start_combat_encounter`] does with `participants`: with fewer than two only a
/// log line, else the encounter starts.
pub open spec fn combat_start_outcome<H: ContentRuntimeHooks>(
    before: &Game<H>,
    after: &Game<H>,
    participants: Seq<EntityId>,
    profile: EncounterProfile,
    message: Seq<char>,
) -> bool {
    if participants.len() < 2 {
        &&& *after == (Game { log: after.log, ..*before })
        &&& lines(after.log@) == lines(before.log@).push("Need at least two actors to start combat."@)
    } else {
        encounter_started(before, after, participants, profile, message)
    }
}

/// Starts an encounter among `participants` (at least two) with `profile`, rolling its
/// initiative, and logs `message`; with fewer than two it only logs why not.
pub fn start_combat_encounter<H: ContentRuntimeHooks>(
    game: &mut Game<H>,
    participants: Vec<EntityId>,
    profile: EncounterProfile,
    message: &str,
)
    requires
        old(game).wf(),
    ensures
        final(game).wf(),
        combat_start_outcome(old(game), final(game), participants@, profile, message@),
{
    if participants.len() < 2 {
        log_line(&mut game.log, "Need at least two actors to start combat.");
        return;
    }
    let state = CombatState::from_participants(
        participants,
        &game.entities,
        game.map.width,
        game.map.height,
        &mut game.rng_seed,
        profile,
    );
    game.modes.push(GameMode::Combat(state));
    log_line(&mut game.log, message);
}

/// `after` is `before` once the encounter `state` ended: see [`finish_combat`].
pub open spec fn combat_finished<H: ContentRuntimeHooks>(
    before: &Game<H>,
    after: &Game<H>,
    state: CombatStateView,
) -> bool {
    let nonlethal = !(state.profile.ruleset is Lethal);
    let after_heal = if nonlethal {
        lines(before.log@).push("Training fight ends. Everyone catches their breath."@)
    } else {
        lines(before.log@)
    };
    let fallen = state.profile.ruleset is Lethal && player_dead(before);
    &&& *after == (Game {
        modes: after.modes,
        log: after.log,
        entities: after.entities,
        pending_forced_dialogue: after.pending_forced_dialogue,
        npc_combat_ai_tick_cooldown: 0,
        player_walk_path: after.player_walk_path,
        player_walk_goal: None,
        player_walk_tick_cooldown: 0,
        pending_player_action: None,
        ..*before
    })
    &&& after.player_walk_path@.len() == 0
    &&& after.entities == (EntityArena { combat_stats: after.entities.combat_stats, ..before.entities })
    &&& after.entities.combat_stats@ == if nonlethal {
        healed(before.entities.combat_stats@, state.initiative)
    } else {
        before.entities.combat_stats@
    }
    &&& nonlethal && epilogue_due(before, state) ==> {
        &&& after.pending_forced_dialogue matches Some(p)
        &&& state.profile.outcome_policy matches EncounterOutcomePolicy::TrainingSpar { trainer }
        &&& p.npc == trainer
    }
    &&& !(nonlethal && epilogue_due(before, state)) ==> after.pending_forced_dialogue
        == before.pending_forced_dialogue
    &&& fallen ==> after.modes.stack@ == seq![GameMode::GameOver]
        && lines(after.log@) == after_heal.push("Combat ended."@).push("You have fallen."@)
    &&& !fallen ==> after.modes.stack@ == popped(before.modes.stack@)
        && lines(after.log@) == after_heal.push("Combat ended."@)
}

/// Ends the encounter `state`: resets the combat pacing and the player's walk; after a
/// non-lethal fight schedules the training epilogue (when due), heals every participant
/// and says so; logs the end and leaves the encounter mode. When a lethal fight leaves the
/// player dead, the game is over.
pub fn finish_combat<H: ContentRuntimeHooks>(game: &mut Game<H>, state: &CombatState)
    requires
        old(game).wf(),
    ensures
        final(game).wf(),
        combat_finished(old(game), final(game), state@),
{
    game.npc_combat_ai_tick_cooldown = 0;
    game.clear_player_walk();
    let ghost g1 = *game;
    if !matches!(state.profile.ruleset, CombatRuleset::Lethal) {
        game.schedule_training_spar_epilogue(state);
        let ghost g2 = *game;
        let ghost s0 = game.entities.combat_stats@;
        let mut i: usize = 0;
        while i < state.initiative.len()
            invariant
                i <= state.initiative@.len(),
                game.entities.wf(),
                game.entities.combat_stats@ == healed(s0, state.initiative@.take(i as int)),
                s0.len() == game.entities.combat_stats@.len(),
                forall|j: int| 0 <= j < s0.len() ==> #[trigger] s0[j].speed <= crate::combat::MAX_COMBAT_SPEED,
                *game == (Game { entities: game.entities, ..g2 }),
                game.entities == (EntityArena { combat_stats: game.entities.combat_stats, ..g2.entities }),
            decreases state.initiative@.len() - i,
        {
            let id = state.initiative[i];
            let ghost before = game.entities.combat_stats@;
            match game.entities.stats(id) {
                Some(st) => {
                    game.entities.set_stats(id, ActorStats { hp: st.max_hp, ..st });
                },
                None => {},
            }
            proof {
                let ids = state.initiative@.take(i + 1);
                assert forall|j: int| 0 <= j < s0.len() implies listed(ids, j) == (listed(
                    state.initiative@.take(i as int),
                    j,
                ) || j == id.0) by {
                    if listed(ids, j) {
                        let k = choose|k: int| 0 <= k < ids.len() && ids[k].0 == j;
                        if k < i {
                            assert(state.initiative@.take(i as int)[k] == ids[k]);
                        }
                    }
                    if listed(state.initiative@.take(i as int), j) {
                        let k = choose|k: int| 0 <= k < i && state.initiative@.take(i as int)[k].0 == j;
                        assert(ids[k] == state.initiative@.take(i as int)[k]);
                    }
                    if j == id.0 {
                        assert(ids[i as int] == id);
                    }
                }
                assert(game.entities.combat_stats@ =~= healed(s0, ids));
            }
            i = i + 1;
        }
        assert(state.initiative@.take(state.initiative@.len() as int) =~= state.initiative@);
        log_line(&mut game.log, "Training fight ends. Everyone catches their breath.");
    }
    log_line(&mut game.log, "Combat ended.");
    let _ = game.modes.pop();
    if matches!(state.profile.ruleset, CombatRuleset::Lethal) {
        match game.entities.player {
            Some(pid) => {
                if !game.entities.is_alive(pid) {
                    let mut over: Vec<GameMode> = Vec::new();
                    over.push(GameMode::GameOver);
                    assert(over@ =~= seq![GameMode::GameOver]);
                    game.modes.stack = over;
                    log_line(&mut game.log, "You have fallen.");
                }
            },
            None => {},
        }
    }
    proof {
        if state.profile.ruleset is Lethal {
            assert(game.entities.combat_stats@ =~= old(game).entities.combat_stats@);
        }
    }
}


/// Slot `j` holds a live actor other than the player that is hostile to the player, whose
/// blueprint has an aggro rule, and for which that rule holds.
pub open spec fn contact_at<H: ContentRuntimeHooks>(game: &Game<H>, pid: EntityId, j: int) -> bool {
    &&& 0 <= j < game.entities.len()
    &&& game.entities.alive@[j]
    &&& j != pid.0
    &&& spec_blueprint_for(&game.content, &game.entities, EntityId(j as u32)) matches Some(bp)
    &&& bp.behavior.hostile_trigger matches Some(t)
    &&& game.spec_relation_to_player(EntityId(j as u32)) == Relation::Hostile
    &&& game.spec_hostile_trigger_met(EntityId(j as u32), t)
}

/// The lowest slot in hostile contact with the player.
pub open spec fn first_contact<H: ContentRuntimeHooks>(game: &Game<H>, pid: EntityId) -> Option<int> {
    first_match(game.entities.len(), |j: int| contact_at(game, pid, j))
}

/// Starts a lethal encounter between the player and the lowest slot in hostile contact,
/// unless an encounter is already active. Returns whether one started.
pub fn detect_hostile_encounters<H: ContentRuntimeHooks>(game: &mut Game<H>) -> (r: bool)
    requires
        old(game).wf(),
    ensures
        final(game).wf(),
        r == (old(game).entities.player matches Some(pid) && !in_combat(old(game).modes.stack@)
            && first_contact(old(game), pid) is Some),
        !r ==> *final(game) == *old(game),
        r ==> ({
            let pid = old(game).entities.player->0;
            let j = first_contact(old(game), pid)->0;
            encounter_started(
                old(game),
                final(game),
                seq![pid, EntityId(j as u32)],
                EncounterProfile { ruleset: CombatRuleset::Lethal, outcome_policy: EncounterOutcomePolicy::Plain },
                "Hostile contact!"@,
            )
        }),
{
    let pid = match game.entities.player {
        Some(p) => p,
        None => { return false; },
    };
    let ghost p = |j: int| contact_at(&*game, pid, j);
    let mut i: usize = 0;
    while i < game.entities.alive.len()
        invariant
            i <= game.entities.len(),
            *game == *old(game),
            game.wf(),
            game.entities.player == Some(pid),
            p == (|j: int| contact_at(old(game), pid, j)),
            in_combat(game.modes.stack@) || forall|k: int| 0 <= k < i ==> !#[trigger] p(k),
        decreases game.entities.len() - i,
    {
        if !game.entities.alive[i] {
            i = i + 1;
            continue;
        }
        let eid = EntityId(i as u32);
        if eid.0 == pid.0 {
            i = i + 1;
            continue;
        }
        let bp = match blueprint_of(&game.content, &game.entities, eid) {
            Some(b) => b,
            None => {
                i = i + 1;
                continue;
            },
        };
        let trigger = match bp.behavior.hostile_trigger {
            Some(t) => t,
            None => {
                i = i + 1;
                continue;
            },
        };
        if !matches!(game.relation_to_player(eid), Relation::Hostile) {
            i = i + 1;
            continue;
        }
        if !game.hostile_trigger_met(eid, trigger) {
            i = i + 1;
            continue;
        }
        assert(p(i as int));
        let cur_combat = match game.modes.current() {
            Some(GameMode::Combat(_)) => true,
            _ => false,
        };
        if !cur_combat {
            proof { lemma_first_match_is(game.entities.len(), p, i as int); }
            let mut parts: Vec<EntityId> = Vec::new();
            parts.push(pid);
            parts.push(eid);
            assert(parts@ =~= seq![pid, eid]);
            start_combat_encounter(
                game,
                parts,
                EncounterProfile { ruleset: CombatRuleset::Lethal, outcome_policy: EncounterOutcomePolicy::Plain },
                "Hostile contact!",
            );
            return true;
        }
        i = i + 1;
    }
    proof {
        if !in_combat(game.modes.stack@) {
            lemma_first_match_none(game.entities.len(), p);
        }
    }
    false
}

/// `actor` is alive, hostile to the player, and its blueprint's aggro rule holds.
pub fn is_actively_hostile_to_player<H: ContentRuntimeHooks>(game: &Game<H>, actor: EntityId) -> (b: bool)
    ensures
        b == spec_actively_hostile(&game.entities, &game.content, game.entities.player, actor),
{
    is_actively_hostile_to_player_with(&game.entities, &game.content, game.entities.player, actor)
}


/// Chebyshev radius around the player within which actors join a manual turn-based session.
pub const MANUAL_TURN_RADIUS: i32 = 20;

/// Slot `j` holds a live actor other than the player standing within
/// [`MANUAL_TURN_RADIUS`] of `pp`.
pub open spec fn joins_turn_session<H: ContentRuntimeHooks>(game: &Game<H>, pid: EntityId, pp: GridPos, j: int) -> bool {
    &&& 0 <= j < game.entities.len()
    &&& game.entities.alive@[j]
    &&& j != pid.0
    &&& game.entities.npc_kind@[j] is Some
    &&& game.entities.position@[j] matches Some(e)
    &&& spec_chebyshev(pp, e) <= MANUAL_TURN_RADIUS
}

/// The player followed by the joining slots below `n`, in slot order.
pub open spec fn turn_session_members<H: ContentRuntimeHooks>(game: &Game<H>, pid: EntityId, pp: GridPos, n: int) -> Seq<EntityId>
    decreases n,
{
    if n <= 0 {
        seq![pid]
    } else {
        let r = turn_session_members(game, pid, pp, n - 1);
        if joins_turn_session(game, pid, pp, n - 1) {
            r.push(EntityId((n - 1) as u32))
        } else {
            r
        }
    }
}

/// `after` is `before` with a lethal manual turn-based session started around the player
/// (nothing happens without a placed player).
pub open spec fn turn_session_entered<H: ContentRuntimeHooks>(before: &Game<H>, after: &Game<H>) -> bool {
    match before.entities.player {
        Some(pid) => match before.entities.spec_pos(pid) {
            Some(pp) => combat_start_outcome(
                before,
                after,
                turn_session_members(before, pid, pp, before.entities.len()),
                EncounterProfile { ruleset: CombatRuleset::Lethal, outcome_policy: EncounterOutcomePolicy::Plain },
                "Turn-based mode activated."@,
            ),
            None => *after == *before,
        },
        None => *after == *before,
    }
}

/// Some participant of `state` is actively hostile to the player.
pub open spec fn hostiles_engaged<H: ContentRuntimeHooks>(game: &Game<H>, state: CombatStateView) -> bool {
    exists|k: int|
        0 <= k < state.initiative.len() && #[trigger] spec_actively_hostile(
            &game.entities,
            &game.content,
            game.entities.player,
            state.initiative[k],
        )
}

/// `after` is `before` once the player asked to leave the session `state`: refused while
/// hostiles are engaged, else the encounter ends.
pub open spec fn turn_session_left<H: ContentRuntimeHooks>(before: &Game<H>, after: &Game<H>, state: CombatStateView) -> bool {
    if hostiles_engaged(before, state) {
        &&& *after == (Game { log: after.log, ..*before })
        &&& lines(after.log@) == lines(before.log@).push(
            "Cannot leave turn-based mode while hostiles are engaged!"@,
        )
    } else {
        exists|mid: Game<H>|
            #![trigger combat_finished(&mid, after, state)]
            mid == (Game { log: mid.log, ..*before }) && lines(mid.log@) == lines(before.log@).push(
                "Leaving turn-based mode."@,
            ) && combat_finished(&mid, after, state)
    }
}

fn enter_turn_based_manual<H: ContentRuntimeHooks>(game: &mut Game<H>)
    requires
        old(game).wf(),
    ensures
        final(game).wf(),
        turn_session_entered(old(game), final(game)),
{
    let pid = match game.entities.player {
        Some(p) => p,
        None => { return; },
    };
    let ppos = match game.entities.pos(pid) {
        Some(p) => p,
        None => { return; },
    };
    let mut participants: Vec<EntityId> = Vec::new();
    participants.push(pid);
    let mut i: usize = 0;
    while i < game.entities.alive.len()
        invariant
            i <= game.entities.len(),
            *game == *old(game),
            game.wf(),
            game.entities.player == Some(pid),
            participants@ == turn_session_members(old(game), pid, ppos, i as int),
        decreases game.entities.len() - i,
    {
        let joins = game.entities.alive[i] && i as u32 != pid.0 && game.entities.npc_kind[i].is_some()
            && match game.entities.position[i] {
            Some(e) => {
                let d = chebyshev(ppos, e);
                proof {
                    assert(clamp_i32(spec_chebyshev(ppos, e)) <= MANUAL_TURN_RADIUS <==> spec_chebyshev(ppos, e)
                        <= MANUAL_TURN_RADIUS);
                }
                d <= MANUAL_TURN_RADIUS
            },
            None => false,
        };
        assert(joins == joins_turn_session(old(game), pid, ppos, i as int));
        if joins {
            participants.push(EntityId(i as u32));
        }
        i = i + 1;
    }
    start_combat_encounter(
        game,
        participants,
        EncounterProfile { ruleset: CombatRuleset::Lethal, outcome_policy: EncounterOutcomePolicy::Plain },
        "Turn-based mode activated.",
    );
}

fn exit_turn_based_manual<H: ContentRuntimeHooks>(game: &mut Game<H>, state: &CombatState)
    requires
        old(game).wf(),
    ensures
        final(game).wf(),
        turn_session_left(old(game), final(game), state@),
{
    let mut k: usize = 0;
    while k < state.initiative.len()
        invariant
            k <= state.initiative@.len(),
            *game == *old(game),
            game.wf(),
            forall|j: int|
                0 <= j < k ==> !#[trigger] spec_actively_hostile(
                    &game.entities,
                    &game.content,
                    game.entities.player,
                    state.initiative@[j],
                ),
        decreases state.initiative@.len() - k,
    {
        if is_actively_hostile_to_player(game, state.initiative[k]) {
            assert(spec_actively_hostile(&game.entities, &game.content, game.entities.player, state@.initiative[k as int]));
            assert(hostiles_engaged(&*game, state@));
            log_line(&mut game.log, "Cannot leave turn-based mode while hostiles are engaged!");
            return;
        }
        k = k + 1;
    }
    log_line(&mut game.log, "Leaving turn-based mode.");
    let ghost mid = *game;
    finish_combat(game, state);
    assert(combat_finished(&mid, &*game, state@));
}

/// From exploration, starts a lethal turn-based session with every actor near the player;
/// from an encounter, leaves it when no participant is actively hostile; otherwise nothing.
pub fn toggle_turn_based<H: ContentRuntimeHooks>(game: &mut Game<H>)
    requires
        old(game).wf(),
    ensures
        final(game).wf(),
        old(game).modes.stack@.len() > 0 && old(game).modes.stack@.last() is Exploration
            ==> turn_session_entered(old(game), final(game)),
        in_combat(old(game).modes.stack@) ==> turn_session_left(
            old(game),
            final(game),
            old(game).modes.stack@.last()->Combat_0@,
        ),
        !(old(game).modes.stack@.len() > 0 && old(game).modes.stack@.last() is Exploration) && !in_combat(
            old(game).modes.stack@,
        ) ==> *final(game) == *old(game),
{
    let state = match game.modes.current() {
        Some(GameMode::Exploration) => {
            enter_turn_based_manual(game);
            return;
        },
        Some(GameMode::Combat(s)) => s.duplicate(),
        _ => { return; },
    };
    exit_turn_based_manual(game, &state);
}


/// `after` follows `before` once a non-lethal training spar against `trainer` started
/// (nothing without a player).
pub open spec fn spar_started<H: ContentRuntimeHooks>(before: &Game<H>, after: &Game<H>, trainer: EntityId) -> bool {
    match before.entities.player {
        None => *after == *before,
        Some(pid) => combat_start_outcome(
            before,
            after,
            seq![pid, trainer],
            EncounterProfile {
                ruleset: CombatRuleset::NonLethalSpar,
                outcome_policy: EncounterOutcomePolicy::TrainingSpar { trainer },
            },
            "Training spar started. Non-lethal rules are active."@,
        ),
    }
}

impl<H: ContentRuntimeHooks> Game<H> {
    /// Starts a non-lethal training spar between the player and `trainer` (nothing
    /// without a player).
    pub fn start_training_spar(&mut self, trainer: EntityId)
        requires
            old(self).wf(),
        ensures
            final(self).wf(),
            spar_started(old(self), final(self), trainer),
    {
        let pid = match self.entities.player {
            Some(p) => p,
            None => { return; },
        };
        let mut participants: Vec<EntityId> = Vec::new();
        participants.push(pid);
        participants.push(trainer);
        assert(participants@ =~= seq![pid, trainer]);
        start_combat_encounter(
            self,
            participants,
            EncounterProfile {
                ruleset: CombatRuleset::NonLethalSpar,
                outcome_policy: EncounterOutcomePolicy::TrainingSpar { trainer },
            },
            "Training spar started. Non-lethal rules are active.",
        );
    }
}

} // verus!
