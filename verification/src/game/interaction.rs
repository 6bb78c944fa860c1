//! What the player's interact key does where the player stands.

use vstd::prelude::*;

use crate::behavior::navigation::{delta, spec_delta};
use crate::behavior::relation::{blueprint_of, spec_blueprint_for};
use crate::content::ContentPack;
use crate::entity::{EntityArena, EntityId, GridPos};
use crate::math::{clamp_i32, manhattan, spec_manhattan};

verus! {

/// Manhattan distance within which an NPC can be talked to.
pub const TALK_RANGE_MANHATTAN: i32 = 4;

#[derive(Clone, Copy, Debug, PartialEq, Eq, Structural)]
pub enum InteractionOutcome {
    Dialogue(EntityId),
    Container(EntityId),
    /// Nothing to interact with.
    Nothing,
}

/// Container on the `k`-th neighbour of `p` (scan order), if any.
pub open spec fn container_at_neighbour(entities: &EntityArena, p: GridPos, k: int) -> Option<int> {
    let x = p.x + spec_delta(k).0;
    let y = p.y + spec_delta(k).1;
    if i32::MIN <= x <= i32::MAX && i32::MIN <= y <= i32::MAX {
        entities.spec_first_container_at(x as i32, y as i32)
    } else {
        None
    }
}

/// First container among the first `n` neighbours.
pub open spec fn neighbour_container_upto(entities: &EntityArena, p: GridPos, n: int) -> Option<int>
    decreases n,
{
    if n <= 0 {
        None
    } else {
        match neighbour_container_upto(entities, p, n - 1) {
            Some(c) => Some(c),
            None => container_at_neighbour(entities, p, n - 1),
        }
    }
}

proof fn lemma_neighbour_container_stays(entities: &EntityArena, p: GridPos, m: int, n: int)
    requires
        0 <= m <= n,
        neighbour_container_upto(entities, p, m) is Some,
    ensures
        neighbour_container_upto(entities, p, n) == neighbour_container_upto(entities, p, m),
    decreases n - m,
{
    if n > m {
        lemma_neighbour_container_stays(entities, p, m, n - 1);
    }
}

/// Slot `j` holds a live NPC with a dialogue within talking range of `p`.
pub open spec fn talk_candidate(entities: &EntityArena, content: &ContentPack, p: GridPos, j: int) -> bool {
    &&& entities.alive@[j]
    &&& spec_blueprint_for(content, entities, EntityId(j as u32)) matches Some(bp) && bp.dialogue_id is Some
    &&& entities.position@[j] matches Some(q) && clamp_i32(spec_manhattan(p, q)) <= TALK_RANGE_MANHATTAN
}

/// Nearest talk candidate among the first `n` slots as `(distance, id)`, lowest slot on
/// ties.
pub open spec fn talk_best_upto(entities: &EntityArena, content: &ContentPack, p: GridPos, n: int) -> Option<(int, EntityId)>
    decreases n,
{
    if n <= 0 {
        None
    } else {
        let prev = talk_best_upto(entities, content, p, n - 1);
        if talk_candidate(entities, content, p, n - 1) {
            let d = clamp_i32(spec_manhattan(p, entities.position@[n - 1].unwrap()));
            match prev {
                Some(b) => if d < b.0 {
                    Some((d, EntityId((n - 1) as u32)))
                } else {
                    prev
                },
                None => Some((d, EntityId((n - 1) as u32))),
            }
        } else {
            prev
        }
    }
}

/// An adjacent container first (scan order), else the nearest NPC to talk to.
pub open spec fn spec_probe_interaction(entities: &EntityArena, player_pos: GridPos, content: &ContentPack) -> InteractionOutcome {
    match neighbour_container_upto(entities, player_pos, 8) {
        Some(c) => InteractionOutcome::Container(EntityId(c as u32)),
        None => match talk_best_upto(entities, content, player_pos, entities.len()) {
            Some(b) => InteractionOutcome::Dialogue(b.1),
            None => InteractionOutcome::Nothing,
        },
    }
}

/// Prefers an adjacent chest, then the closest talkable NPC within
/// [`TALK_RANGE_MANHATTAN`].
pub fn probe_interaction(entities: &EntityArena, player_pos: GridPos, content: &ContentPack) -> (r: InteractionOutcome)
    requires
        entities.wf(),
    ensures
        r == spec_probe_interaction(entities, player_pos, content),
{
    let mut k: usize = 0;
    while k < 8
        invariant
            k <= 8,
            entities.wf(),
            neighbour_container_upto(entities, player_pos, k as int) is None,
        decreases 8 - k,
    {
        let (dx, dy) = delta(k);
        let nx: i64 = player_pos.x as i64 + dx as i64;
        let ny: i64 = player_pos.y as i64 + dy as i64;
        if nx >= i32::MIN as i64 && nx <= i32::MAX as i64 && ny >= i32::MIN as i64 && ny <= i32::MAX as i64 {
            match entities.first_container_at(nx as i32, ny as i32) {
                Some(chest) => {
                    proof { lemma_neighbour_container_stays(entities, player_pos, k + 1, 8); }
                    return InteractionOutcome::Container(chest);
                },
                None => {},
            }
        }
        k = k + 1;
    }
    let mut best: Option<(i32, EntityId)> = None;
    let mut i: usize = 0;
    while i < entities.alive.len()
        invariant
            i <= entities.len(),
            entities.wf(),
            best matches Some(b) ==> talk_best_upto(entities, content, player_pos, i as int) == Some((b.0 as int, b.1)),
            best is None ==> talk_best_upto(entities, content, player_pos, i as int) is None,
        decreases entities.len() - i,
    {
        if entities.alive[i] {
            let eid = EntityId(i as u32);
            assert(eid == EntityId((i as int) as u32));
            match blueprint_of(content, entities, eid) {
                Some(bp) => {
                    if bp.dialogue_id.is_some() {
                        match entities.pos(eid) {
                            Some(pos) => {
                                let d = manhattan(player_pos, pos);
                                if d <= TALK_RANGE_MANHATTAN {
                                    let better = match best {
                                        Some(b) => d < b.0,
                                        None => true,
                                    };
                                    if better {
                                        best = Some((d, eid));
                                    }
                                }
                            },
                            None => {},
                        }
                    }
                },
                None => {},
            }
        }
        i = i + 1;
    }
    match best {
        Some(b) => InteractionOutcome::Dialogue(b.1),
        None => InteractionOutcome::Nothing,
    }
}

} // verus!
