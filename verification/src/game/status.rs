//! The encounter column of the HUD: whose turn it is, the player's health and action
//! points, the spell list and the fighter under the pointer.

use vstd::prelude::*;

use crate::combat::{CombatRuleset, CombatState, CombatStateView, ACTION_UNIT};
use crate::content::{ContentRuntimeHooks, Relation};
use crate::entity::{EntityId, GridPos};
use crate::math::{clamp_i32, manhattan, spec_manhattan};
use crate::search::{first_match, lemma_first_match_is, lemma_first_match_none};
use crate::text::{decimal, spec_decimal};
use vstd::string::StrSliceExecFns;
use super::hud::{fireball_status_line, spec_fireball_status_line};
use super::state::{lemma_lines_push, lines, Game};

verus! {

/// What the pointer rests on, in world terms, as the screen layout reports it.
#[derive(Clone, Copy, Debug, PartialEq, Eq, Structural)]
pub enum HoverTarget {
    /// No pointer position known yet.
    Nothing,
    /// The pointer is outside the world view.
    OffMap,
    Cell(GridPos),
}

/// Position in `occ` of the first entity that fights in `s` and is not the player.
pub open spec fn first_fighter(occ: Seq<EntityId>, s: CombatStateView, player: Option<EntityId>) -> Option<int> {
    first_match(occ.len() as int, |k: int| s.initiative.contains(occ[k]) && player != Some(occ[k]))
}

/// Display name of `e` (empty for a slot that does not exist).
pub open spec fn entity_name<H: ContentRuntimeHooks>(game: &Game<H>, e: EntityId) -> Seq<char> {
    if (e.0 as int) < game.entities.name@.len() {
        game.entities.name@[e.0 as int]@
    } else {
        Seq::empty()
    }
}

/// `"Range    <d>"` with the Manhattan distance from the player to `wp`, when the player
/// stands somewhere.
pub open spec fn range_lines<H: ContentRuntimeHooks>(game: &Game<H>, wp: GridPos) -> Seq<Seq<char>> {
    match game.spec_player_pos() {
        Some(p) => seq!["Range    "@ + spec_decimal(clamp_i32(spec_manhattan(p, wp)) as nat)],
        None => Seq::empty(),
    }
}

/// The fighter shown for cell `wp`: the first one there (other than the player), when
/// it has a name.
pub open spec fn shown_foe<H: ContentRuntimeHooks>(game: &Game<H>, s: CombatStateView, wp: GridPos) -> Option<EntityId> {
    let occ = game.entities.spec_occupants(wp.x, wp.y);
    match first_fighter(occ, s, game.entities.player) {
        Some(k) => if entity_name(game, occ[k]).len() > 0 { Some(occ[k]) } else { None },
        None => None,
    }
}

/// The "Target" block: the fighter under the pointer with its health, range and whether
/// it is hostile, or a dash when none is.
pub open spec fn spec_combat_target_lines<H: ContentRuntimeHooks>(
    game: &Game<H>,
    s: CombatStateView,
    hover: HoverTarget,
) -> Seq<Seq<char>> {
    match hover {
        HoverTarget::Nothing => seq!["—"@],
        HoverTarget::OffMap => seq!["(off map)"@],
        HoverTarget::Cell(wp) => match shown_foe(game, s, wp) {
            Some(e) => seq![entity_name(game, e)] + (match game.entities.spec_stats(e) {
                Some(st) => seq!["HP       "@ + spec_decimal(st.hp as nat) + "/"@ + spec_decimal(st.max_hp as nat)],
                None => Seq::empty(),
            }) + range_lines(game, wp) + (if game.spec_relation_to_player(e) == Relation::Hostile {
                seq!["Hostile"@]
            } else {
                Seq::empty()
            }),
            None => seq!["—"@, "(no fighter here)"@] + range_lines(game, wp),
        },
    }
}

fn push_line(v: &mut Vec<String>, s: String)
    ensures
        lines(final(v)@) == lines(old(v)@).push(s@),
{
    proof { lemma_lines_push(v@, s); }
    v.push(s);
}

fn name_of<H: ContentRuntimeHooks>(game: &Game<H>, e: EntityId) -> (n: String)
    ensures
        n@ == entity_name(game, e),
{
    let i = e.0 as usize;
    if i < game.entities.name.len() {
        game.entities.name[i].clone()
    } else {
        String::new()
    }
}

/// The "Target" block for `hover` (see [`spec_combat_target_lines`]).
pub fn combat_target_lines<H: ContentRuntimeHooks>(game: &Game<H>, state: &CombatState, hover: HoverTarget) -> (out: Vec<String>)
    requires
        game.entities.wf(),
    ensures
        lines(out@) == spec_combat_target_lines(game, state@, hover),
{
    let mut out: Vec<String> = Vec::new();
    let wp = match hover {
        HoverTarget::Nothing => {
            push_line(&mut out, String::from_str("—"));
            return out;
        },
        HoverTarget::OffMap => {
            push_line(&mut out, String::from_str("(off map)"));
            return out;
        },
        HoverTarget::Cell(wp) => wp,
    };
    let pid = game.entities.player;
    let occ = game.entities.occupants_at(wp.x, wp.y);
    let ghost p = |k: int| state@.initiative.contains(occ@[k]) && pid != Some(occ@[k]);
    let mut found: Option<usize> = None;
    let mut k: usize = 0;
    while k < occ.len()
        invariant
            k <= occ@.len(),
            occ@ == game.entities.spec_occupants(wp.x, wp.y),
            pid == game.entities.player,
            p == (|k: int| state@.initiative.contains(occ@[k]) && pid != Some(occ@[k])),
            forall|j: int| 0 <= j < k ==> !#[trigger] p(j),
            found matches Some(f) ==> f == k && k < occ@.len() && p(f as int),
        ensures
            found is None ==> k == occ@.len(),
        decreases occ@.len() - k,
    {
        let e = occ[k];
        let is_pid = match pid {
            Some(q) => q.0 == e.0,
            None => false,
        };
        if state.contains_actor(e) && !is_pid {
            assert(p(k as int));
            found = Some(k);
            break;
        }
        k = k + 1;
    }
    let foe: Option<EntityId> = match found {
        Some(k) => {
            proof { lemma_first_match_is(occ@.len() as int, p, k as int); }
            let n = name_of(game, occ[k]);
            if n.as_str().unicode_len() > 0 { Some(occ[k]) } else { None }
        },
        None => {
            proof { lemma_first_match_none(occ@.len() as int, p); }
            None
        },
    };
    assert(foe == shown_foe(game, state@, wp));
    let range: Option<i32> = match game.player_pos() {
        Some(pp) => Some(manhattan(pp, wp)),
        None => None,
    };
    match foe {
        Some(e) => {
            push_line(&mut out, name_of(game, e));
            match game.entities.stats(e) {
                Some(st) => {
                    push_line(
                        &mut out,
                        String::from_str("HP       ").concat(decimal(st.hp as u64).as_str()).concat("/").concat(
                            decimal(st.max_hp as u64).as_str(),
                        ),
                    );
                },
                None => {},
            }
            let ghost before_range = lines(out@);
            if let Some(r) = range {
                push_line(&mut out, String::from_str("Range    ").concat(decimal(r as u64).as_str()));
            }
            assert(lines(out@) == before_range + range_lines(game, wp));
            if game.is_hostile_to_player(e) {
                push_line(&mut out, String::from_str("Hostile"));
            }
            assert(lines(out@) == spec_combat_target_lines(game, state@, hover));
        },
        None => {
            push_line(&mut out, String::from_str("—"));
            push_line(&mut out, String::from_str("(no fighter here)"));
            if let Some(r) = range {
                push_line(&mut out, String::from_str("Range    ").concat(decimal(r as u64).as_str()));
            }
            assert(lines(out@) == spec_combat_target_lines(game, state@, hover));
        },
    }
    out
}

/// The line naming whose turn it is (a dash when nobody's).
pub open spec fn turn_line<H: ContentRuntimeHooks>(game: &Game<H>, s: CombatStateView) -> Seq<char> {
    "Turn     "@ + match s.current_actor() {
        Some(a) => if (a.0 as int) < game.entities.name@.len() { game.entities.name@[a.0 as int]@ } else { "—"@ },
        None => "—"@,
    }
}

/// The player's health and action points (the latter only on the player's turn).
pub open spec fn player_lines<H: ContentRuntimeHooks>(game: &Game<H>, s: CombatStateView) -> Seq<Seq<char>> {
    match game.entities.player {
        None => Seq::empty(),
        Some(pid) => (match game.spec_player_stats() {
            Some(st) => seq!["Health   "@ + spec_decimal(st.hp as nat) + "/"@ + spec_decimal(st.max_hp as nat)],
            None => Seq::empty(),
        }) + if s.current_actor() == Some(pid) {
            seq!["AP       "@ + spec_decimal(
                match s.current_ap_units() {
                    Some(u) => (u / ACTION_UNIT) as nat,
                    None => 0,
                },
            )]
        } else {
            seq!["AP       (enemy)"@]
        },
    }
}

/// The encounter column: a heading (marked as training for the non-lethal rulesets),
/// whose turn it is, the player's lines, the spell list and the target block.
pub open spec fn spec_combat_status_lines<H: ContentRuntimeHooks>(
    game: &Game<H>,
    s: CombatStateView,
    hover: HoverTarget,
) -> Seq<Seq<char>> {
    seq![if s.profile.ruleset is Lethal { "Combat"@ } else { "Combat (training)"@ }, Seq::empty(), turn_line(game, s)]
        + player_lines(game, s) + seq![Seq::empty(), "Spells"@, spec_fireball_status_line(game), Seq::empty(), "Target"@]
        + spec_combat_target_lines(game, s, hover)
}

/// The encounter column for `state` (see [`spec_combat_status_lines`]).
pub fn combat_status_lines<H: ContentRuntimeHooks>(game: &Game<H>, state: &CombatState, hover: HoverTarget) -> (out: Vec<String>)
    requires
        game.entities.wf(),
    ensures
        lines(out@) == spec_combat_status_lines(game, state@, hover),
{
    let mut out: Vec<String> = Vec::new();
    match state.profile.ruleset {
        CombatRuleset::Lethal => push_line(&mut out, String::from_str("Combat")),
        _ => push_line(&mut out, String::from_str("Combat (training)")),
    }
    push_line(&mut out, String::new());
    let actor = state.current_actor();
    let who = match actor {
        Some(a) => if (a.0 as usize) < game.entities.name.len() {
            game.entities.name[a.0 as usize].clone()
        } else {
            String::from_str("—")
        },
        None => String::from_str("—"),
    };
    push_line(&mut out, String::from_str("Turn     ").concat(who.as_str()));
    let ghost head = lines(out@);
    if let Some(pid) = game.entities.player {
        if let Some(st) = game.player_stats() {
            push_line(
                &mut out,
                String::from_str("Health   ").concat(decimal(st.hp as u64).as_str()).concat("/").concat(
                    decimal(st.max_hp as u64).as_str(),
                ),
            );
        }
        let mine = match actor {
            Some(a) => a.0 == pid.0,
            None => false,
        };
        if mine {
            let ap: u16 = match state.current_ap() {
                Some(v) => v,
                None => 0,
            };
            push_line(&mut out, String::from_str("AP       ").concat(decimal(ap as u64).as_str()));
        } else {
            push_line(&mut out, String::from_str("AP       (enemy)"));
        }
    }
    assert(lines(out@) == head + player_lines(game, state@));
    push_line(&mut out, String::new());
    push_line(&mut out, String::from_str("Spells"));
    push_line(&mut out, fireball_status_line(game));
    push_line(&mut out, String::new());
    push_line(&mut out, String::from_str("Target"));
    let ghost mid = lines(out@);
    let target = combat_target_lines(game, state, hover);
    let mut i: usize = 0;
    while i < target.len()
        invariant
            i <= target@.len(),
            lines(target@) == spec_combat_target_lines(game, state@, hover),
            lines(out@) == mid + lines(target@).subrange(0, i as int),
        decreases target@.len() - i,
    {
        push_line(&mut out, target[i].clone());
        assert(lines(target@).subrange(0, i as int + 1) =~= lines(target@).subrange(0, i as int).push(target@[i as int]@));
        i = i + 1;
    }
    assert(lines(target@).subrange(0, target@.len() as int) =~= lines(target@));
    out
}

} // verus!
