//! Entity storage: one slot per `EntityId`, each field kept in its own vector.

use vstd::prelude::*;

use crate::color::Color;
use crate::item::ItemStack;
use crate::search::{first_match, lemma_first_match_is, lemma_first_match_none};

verus! {

#[derive(Clone, Copy, Debug, PartialEq, Eq, Hash, Structural)]
pub struct EntityId(pub u32);

#[derive(Clone, Copy, Debug, PartialEq, Eq, Hash, Structural)]
pub struct GridPos {
    pub x: i32,
    pub y: i32,
}

impl Default for GridPos {
    fn default() -> (p: GridPos)
        ensures
            p == (GridPos { x: 0, y: 0 }),
    {
        GridPos { x: 0, y: 0 }
    }
}

/// Reaction an NPC is currently committed to (latched between ticks).
#[derive(Clone, Copy, Debug, PartialEq, Eq, Structural)]
pub enum ActiveReaction {
    Inactive,
    /// Running away from a threat last seen at `from`.
    Flee { from: GridPos },
    /// Walking to the cell an attack came from.
    Investigate(GridPos),
}

/// Override imposed from outside the blueprint (magic, abilities).
#[derive(Clone, Copy, Debug, PartialEq, Eq, Structural)]
pub enum ForcedReaction {
    Flee { from: GridPos },
}

/// Per-NPC memory used by the behavior layer.
#[derive(Clone, Copy, Debug, PartialEq, Eq, Structural)]
pub struct NpcBrainState {
    pub home: GridPos,
    pub roam_goal: Option<GridPos>,
    pub roam_wait_ticks: u16,
    pub patrol_next_stop: u16,
    pub patrol_wait_ticks: u16,
    /// Idle ticks left after a completed flee before routines resume.
    pub alarmed_ticks: u16,
    pub active: ActiveReaction,
    pub forced_reaction: Option<ForcedReaction>,
    /// Exploration ticks before this NPC may step again.
    pub explore_step_cooldown: u16,
    /// Where the last attacker that hit this NPC stood, for the encounter AI to look into.
    pub investigation_goal: Option<GridPos>,
}

impl NpcBrainState {
    /// A brain with every counter at zero and no goal, anchored at `home`.
    pub open spec fn spec_at_home(home: GridPos) -> NpcBrainState {
        NpcBrainState {
            home,
            roam_goal: None,
            roam_wait_ticks: 0,
            patrol_next_stop: 0,
            patrol_wait_ticks: 0,
            alarmed_ticks: 0,
            active: ActiveReaction::Inactive,
            forced_reaction: None,
            explore_step_cooldown: 0,
            investigation_goal: None,
        }
    }

    pub open spec fn spec_default() -> NpcBrainState {
        Self::spec_at_home(GridPos { x: 0, y: 0 })
    }

    pub fn at_home(home: GridPos) -> (b: NpcBrainState)
        ensures
            b == Self::spec_at_home(home),
    {
        NpcBrainState {
            home,
            roam_goal: None,
            roam_wait_ticks: 0,
            patrol_next_stop: 0,
            patrol_wait_ticks: 0,
            alarmed_ticks: 0,
            active: ActiveReaction::Inactive,
            forced_reaction: None,
            explore_step_cooldown: 0,
            investigation_goal: None,
        }
    }
}

impl Default for NpcBrainState {
    fn default() -> (b: NpcBrainState)
        ensures
            b == NpcBrainState::spec_default(),
    {
        NpcBrainState::at_home(GridPos { x: 0, y: 0 })
    }
}

#[derive(Clone, Copy, Debug, PartialEq, Eq, Structural)]
pub struct ActorStats {
    pub hp: u16,
    pub max_hp: u16,
    pub strength: u16,
    pub agility: u16,
    pub speed: u16,
}

impl ActorStats {
    pub fn from_full(hp: u16, max_hp: u16, strength: u16, agility: u16, speed: u16) -> (s: ActorStats)
        ensures
            s == (ActorStats { hp, max_hp, strength, agility, speed }),
    {
        ActorStats { hp, max_hp, strength, agility, speed }
    }

    /// Conservative baseline for non-combat props.
    pub open spec fn spec_default() -> ActorStats {
        ActorStats { hp: 1, max_hp: 1, strength: 1, agility: 1, speed: 1 }
    }
}

impl Default for ActorStats {
    fn default() -> (s: ActorStats)
        ensures
            s == ActorStats::spec_default(),
    {
        ActorStats::from_full(1, 1, 1, 1, 1)
    }
}

/// Entity stores indexed by `EntityId.0` (dense for small games).
#[derive(Clone, Debug)]
pub struct EntityArena {
    pub next_id: u32,
    pub alive: Vec<bool>,
    pub position: Vec<Option<GridPos>>,
    pub blocks_movement: Vec<bool>,
    pub glyph: Vec<char>,
    pub fg: Vec<Color>,
    pub name: Vec<String>,
    /// If `Some`, the entity is an actor whose blueprint kind is this string.
    pub npc_kind: Vec<Option<String>>,
    /// Ground pickup when `npc_kind` is `None` (world item entity).
    pub item: Vec<Option<ItemStack>>,
    /// Opens the item transfer screen when the player interacts next to it.
    pub is_container: Vec<bool>,
    pub combat_stats: Vec<ActorStats>,
    pub npc_brain: Vec<NpcBrainState>,
    /// The player entity, when one has been designated.
    pub player: Option<EntityId>,
}

impl EntityArena {
    /// Number of slots.
    pub open spec fn len(&self) -> int {
        self.alive@.len() as int
    }

    /// Every per-entity vector has one entry per slot, and slot indices fit an `EntityId`.
    pub open spec fn wf(&self) -> bool {
        let n = self.alive@.len();
        &&& n <= 0x1_0000_0000
        &&& self.position@.len() == n
        &&& self.blocks_movement@.len() == n
        &&& self.glyph@.len() == n
        &&& self.fg@.len() == n
        &&& self.name@.len() == n
        &&& self.npc_kind@.len() == n
        &&& self.item@.len() == n
        &&& self.is_container@.len() == n
        &&& self.combat_stats@.len() == n
        &&& self.npc_brain@.len() == n
    }

    /// Slot `j` holds the contents of an empty (never used or despawned) slot.
    pub open spec fn slot_is_default(&self, j: int) -> bool {
        &&& !self.alive@[j]
        &&& self.position@[j] is None
        &&& !self.blocks_movement@[j]
        &&& self.glyph@[j] == '?'
        &&& self.fg@[j] == Color::spec_default()
        &&& self.name@[j]@.len() == 0
        &&& self.npc_kind@[j] is None
        &&& self.item@[j] is None
        &&& !self.is_container@[j]
        &&& self.combat_stats@[j] == ActorStats::spec_default()
        &&& self.npc_brain@[j] == NpcBrainState::spec_default()
    }

    /// Slot `j` is identical in `self` and `other`.
    pub open spec fn same_slot(&self, other: &EntityArena, j: int) -> bool {
        &&& self.alive@[j] == other.alive@[j]
        &&& self.position@[j] == other.position@[j]
        &&& self.blocks_movement@[j] == other.blocks_movement@[j]
        &&& self.glyph@[j] == other.glyph@[j]
        &&& self.fg@[j] == other.fg@[j]
        &&& self.name@[j] == other.name@[j]
        &&& self.npc_kind@[j] == other.npc_kind@[j]
        &&& self.item@[j] == other.item@[j]
        &&& self.is_container@[j] == other.is_container@[j]
        &&& self.combat_stats@[j] == other.combat_stats@[j]
        &&& self.npc_brain@[j] == other.npc_brain@[j]
    }

    /// Every slot other than `except` is unchanged from `other`, and the slot count is equal.
    pub open spec fn same_except(&self, other: &EntityArena, except: int) -> bool {
        &&& self.len() == other.len()
        &&& self.next_id == other.next_id
        &&& self.player == other.player
        &&& forall|j: int| 0 <= j < self.len() && j != except ==> #[trigger] self.same_slot(other, j)
    }

    pub open spec fn spec_is_alive(&self, id: EntityId) -> bool {
        (id.0 as int) < self.len() && self.alive@[id.0 as int]
    }

    pub open spec fn spec_pos(&self, id: EntityId) -> Option<GridPos> {
        if (id.0 as int) < self.position@.len() {
            self.position@[id.0 as int]
        } else {
            None
        }
    }

    pub open spec fn spec_stats(&self, id: EntityId) -> Option<ActorStats> {
        if (id.0 as int) < self.combat_stats@.len() {
            Some(self.combat_stats@[id.0 as int])
        } else {
            None
        }
    }

    /// Slot `j` is alive and stands on `(x, y)`.
    pub open spec fn occupies(&self, j: int, x: i32, y: i32) -> bool {
        self.alive@[j] && self.position@[j] == Some(GridPos { x, y })
    }

    /// Ids of the live entities on `(x, y)` among the first `n` slots, in slot order.
    pub open spec fn occupants_upto(&self, x: i32, y: i32, n: int) -> Seq<EntityId>
        decreases n,
    {
        if n <= 0 {
            Seq::empty()
        } else {
            let prev = self.occupants_upto(x, y, n - 1);
            if self.occupies(n - 1, x, y) {
                prev.push(EntityId((n - 1) as u32))
            } else {
                prev
            }
        }
    }

    pub open spec fn spec_occupants(&self, x: i32, y: i32) -> Seq<EntityId> {
        self.occupants_upto(x, y, self.len())
    }

    /// Lowest slot on `(x, y)` that is alive and an actor (has an `npc_kind`).
    pub open spec fn spec_first_npc_at(&self, x: i32, y: i32) -> Option<int> {
        first_match(self.len(), |j: int| self.occupies(j, x, y) && self.npc_kind@[j] is Some)
    }

    /// Lowest slot on `(x, y)` that is alive and a container.
    pub open spec fn spec_first_container_at(&self, x: i32, y: i32) -> Option<int> {
        first_match(self.len(), |j: int| self.occupies(j, x, y) && self.is_container@[j])
    }

    /// Lowest slot on `(x, y)` that is alive.
    pub open spec fn spec_first_occupant_at(&self, x: i32, y: i32) -> Option<int> {
        first_match(self.len(), |j: int| self.occupies(j, x, y))
    }

    /// `dest` can be entered: the map does not block it and no live blocking entity other
    /// than `ignore` stands there.
    pub open spec fn spec_can_move_to(&self, map_blocked: bool, dest: GridPos, ignore: Option<EntityId>) -> bool {
        !map_blocked && forall|j: int|
            0 <= j < self.len() && #[trigger] self.occupies(j, dest.x, dest.y) && ignore != Some(
                EntityId(j as u32),
            ) ==> !self.blocks_movement@[j]
    }

    pub proof fn lemma_occupants_upto(&self, x: i32, y: i32, n: int)
        requires
            0 <= n <= self.len(),
            self.wf(),
        ensures
            forall|k: int|
                0 <= k < self.occupants_upto(x, y, n).len() ==> {
                    let e = #[trigger] self.occupants_upto(x, y, n)[k];
                    0 <= e.0 < n && self.occupies(e.0 as int, x, y)
                },
            forall|j: int|
                0 <= j < n && self.occupies(j, x, y) ==> self.occupants_upto(x, y, n).contains(
                    EntityId(j as u32),
                ),
            forall|k1: int, k2: int|
                0 <= k1 < k2 < self.occupants_upto(x, y, n).len() ==> self.occupants_upto(x, y, n)[k1].0
                    < self.occupants_upto(x, y, n)[k2].0,
        decreases n,
    {
        if n > 0 {
            self.lemma_occupants_upto(x, y, n - 1);
            let prev = self.occupants_upto(x, y, n - 1);
            if self.occupies(n - 1, x, y) {
                let cur = prev.push(EntityId((n - 1) as u32));
                assert forall|j: int| 0 <= j < n && self.occupies(j, x, y) implies cur.contains(
                    EntityId(j as u32),
                ) by {
                    if j < n - 1 {
                        let k = choose|k: int| 0 <= k < prev.len() && prev[k] == EntityId(j as u32);
                        assert(cur[k] == EntityId(j as u32));
                    } else {
                        assert(cur[prev.len() as int] == EntityId(j as u32));
                    }
                }
            }
        }
    }

    pub fn new() -> (a: EntityArena)
        ensures
            a.wf(),
            a.len() == 0,
            a.next_id == 0,
            a.player is None,
    {
        EntityArena {
            next_id: 0,
            alive: Vec::new(),
            position: Vec::new(),
            blocks_movement: Vec::new(),
            glyph: Vec::new(),
            fg: Vec::new(),
            name: Vec::new(),
            npc_kind: Vec::new(),
            item: Vec::new(),
            is_container: Vec::new(),
            combat_stats: Vec::new(),
            npc_brain: Vec::new(),
            player: None,
        }
    }

    /// Grows every store with empty slots until slot `i` exists.
    fn extend(&mut self, i: usize)
        requires
            old(self).wf(),
            i < 0x1_0000_0000,
        ensures
            final(self).wf(),
            final(self).len() == if old(self).len() > i { old(self).len() } else { i + 1 },
            final(self).next_id == old(self).next_id,
            final(self).player == old(self).player,
            forall|j: int| 0 <= j < old(self).len() ==> #[trigger] final(self).same_slot(old(self), j),
            forall|j: int| old(self).len() <= j < final(self).len() ==> #[trigger] final(self).slot_is_default(j),
    {
        let ghost n0 = self.len();
        while self.alive.len() <= i
            invariant
                self.wf(),
                n0 == old(self).len(),
                n0 <= self.len(),
                self.len() <= if n0 > i { n0 } else { i + 1 },
                i < 0x1_0000_0000,
                self.next_id == old(self).next_id,
                self.player == old(self).player,
                forall|j: int| 0 <= j < n0 ==> #[trigger] self.same_slot(old(self), j),
                forall|j: int| n0 <= j < self.len() ==> #[trigger] self.slot_is_default(j),
            decreases i + 1 - self.len(),
        {
            let ghost prev = *self;
            self.alive.push(false);
            self.position.push(None);
            self.blocks_movement.push(false);
            self.glyph.push('?');
            self.fg.push(Color::default());
            self.name.push(String::new());
            self.npc_kind.push(None);
            self.item.push(None);
            self.is_container.push(false);
            self.combat_stats.push(ActorStats::default());
            self.npc_brain.push(NpcBrainState::default());
            assert forall|j: int| 0 <= j < prev.len() implies #[trigger] self.same_slot(&prev, j) by {}
            assert(self.slot_is_default(prev.len()));
            assert forall|j: int| 0 <= j < n0 implies #[trigger] self.same_slot(old(self), j) by {
                assert(prev.same_slot(old(self), j));
                assert(self.same_slot(&prev, j));
            }
            assert forall|j: int| n0 <= j < self.len() implies #[trigger] self.slot_is_default(j) by {
                if j < prev.len() {
                    assert(prev.slot_is_default(j));
                    assert(self.same_slot(&prev, j));
                }
            }
        }
    }

    /// Allocates the slot `next_id` for a new live entity and returns its id. `next_id`
    /// advances (saturating at `u32::MAX`); combat stats keep whatever the slot held.
    pub fn spawn(
        &mut self,
        pos: GridPos,
        glyph: char,
        fg: Color,
        name: String,
        blocks_movement: bool,
        npc_kind: Option<String>,
        item: Option<ItemStack>,
        is_container: bool,
    ) -> (id: EntityId)
        requires
            old(self).wf(),
        ensures
            final(self).wf(),
            id.0 == old(self).next_id,
            final(self).next_id == if old(self).next_id == u32::MAX {
                u32::MAX
            } else {
                (old(self).next_id + 1) as u32
            },
            final(self).player == old(self).player,
            final(self).len() == if old(self).len() > id.0 { old(self).len() } else { id.0 + 1 },
            forall|j: int|
                0 <= j < old(self).len() && j != id.0 ==> #[trigger] final(self).same_slot(old(self), j),
            forall|j: int|
                old(self).len() <= j < final(self).len() && j != id.0 ==> #[trigger] final(self).slot_is_default(j),
            final(self).alive@[id.0 as int],
            final(self).position@[id.0 as int] == Some(pos),
            final(self).spec_is_alive(id),
            final(self).spec_pos(id) == Some(pos),
            final(self).blocks_movement@[id.0 as int] == blocks_movement,
            final(self).glyph@[id.0 as int] == glyph,
            final(self).fg@[id.0 as int] == fg,
            final(self).name@[id.0 as int] == name,
            final(self).npc_kind@[id.0 as int] == npc_kind,
            final(self).item@[id.0 as int] == item,
            final(self).is_container@[id.0 as int] == is_container,
            final(self).npc_brain@[id.0 as int] == NpcBrainState::spec_at_home(pos),
            final(self).combat_stats@[id.0 as int] == if (id.0 as int) < old(self).len() {
                old(self).combat_stats@[id.0 as int]
            } else {
                ActorStats::spec_default()
            },
    {
        let id = EntityId(self.next_id);
        self.next_id = self.next_id.saturating_add(1);
        let i = id.0 as usize;
        let ghost pre = *self;
        self.extend(i);
        let ghost mid = *self;
        proof {
            if (i as int) < pre.len() {
                assert(mid.same_slot(&pre, i as int));
            } else {
                assert(mid.slot_is_default(i as int));
            }
        }
        self.alive.set(i, true);
        self.position.set(i, Some(pos));
        self.blocks_movement.set(i, blocks_movement);
        self.glyph.set(i, glyph);
        self.fg.set(i, fg);
        self.name.set(i, name);
        self.npc_kind.set(i, npc_kind);
        self.item.set(i, item);
        self.is_container.set(i, is_container);
        self.npc_brain.set(i, NpcBrainState::at_home(pos));
        assert forall|j: int| 0 <= j < mid.len() && j != i implies #[trigger] self.same_slot(&mid, j) by {}
        assert forall|j: int| 0 <= j < old(self).len() && j != id.0 implies #[trigger] self.same_slot(old(self), j) by {
            assert(mid.same_slot(&pre, j));
            assert(self.same_slot(&mid, j));
        }
        assert forall|j: int| old(self).len() <= j < self.len() && j != id.0 implies #[trigger] self.slot_is_default(j) by {
            assert(mid.slot_is_default(j));
            assert(self.same_slot(&mid, j));
        }
        id
    }

    /// All live entities at `(x, y)`, in slot order.
    pub fn occupants_at(&self, x: i32, y: i32) -> (out: Vec<EntityId>)
        requires
            self.wf(),
        ensures
            out@ == self.spec_occupants(x, y),
    {
        let mut out: Vec<EntityId> = Vec::new();
        let mut i: usize = 0;
        while i < self.alive.len()
            invariant
                self.wf(),
                i <= self.len(),
                out@ == self.occupants_upto(x, y, i as int),
            decreases self.len() - i,
        {
            if self.alive[i] {
                if let Some(p) = self.position[i] {
                    if p.x == x && p.y == y {
                        out.push(EntityId(i as u32));
                    }
                }
            }
            i = i + 1;
        }
        out
    }

    /// Empties slot `id` (no effect when the slot does not exist).
    pub fn despawn(&mut self, id: EntityId)
        requires
            old(self).wf(),
        ensures
            final(self).wf(),
            final(self).same_except(old(self), id.0 as int),
            (id.0 as int) < old(self).len() ==> final(self).slot_is_default(id.0 as int),
            (id.0 as int) >= old(self).len() ==> final(self).same_except(old(self), -1),
            !final(self).spec_is_alive(id),
            final(self).spec_pos(id) is None,
    {
        let i = id.0 as usize;
        if i >= self.alive.len() {
            return;
        }
        self.alive.set(i, false);
        self.position.set(i, None);
        self.blocks_movement.set(i, false);
        self.npc_kind.set(i, None);
        self.item.set(i, None);
        self.is_container.set(i, false);
        self.glyph.set(i, '?');
        self.fg.set(i, Color::default());
        self.name.set(i, String::new());
        self.combat_stats.set(i, ActorStats::default());
        self.npc_brain.set(i, NpcBrainState::default());
    }

    pub fn set_player(&mut self, id: EntityId)
        ensures
            final(self).player == Some(id),
            final(self).next_id == old(self).next_id,
            final(self).alive == old(self).alive,
            final(self).position == old(self).position,
            final(self).blocks_movement == old(self).blocks_movement,
            final(self).glyph == old(self).glyph,
            final(self).fg == old(self).fg,
            final(self).name == old(self).name,
            final(self).npc_kind == old(self).npc_kind,
            final(self).item == old(self).item,
            final(self).is_container == old(self).is_container,
            final(self).combat_stats == old(self).combat_stats,
            final(self).npc_brain == old(self).npc_brain,
    {
        self.player = Some(id);
    }

    pub fn is_alive(&self, id: EntityId) -> (b: bool)
        ensures
            b == self.spec_is_alive(id),
    {
        let i = id.0 as usize;
        if i < self.alive.len() {
            self.alive[i]
        } else {
            false
        }
    }

    pub fn pos(&self, id: EntityId) -> (p: Option<GridPos>)
        ensures
            p == self.spec_pos(id),
    {
        let i = id.0 as usize;
        if i < self.position.len() {
            self.position[i]
        } else {
            None
        }
    }

    /// Moves `id` to `pos` (no effect when the slot does not exist).
    pub fn set_pos(&mut self, id: EntityId, pos: GridPos)
        requires
            old(self).wf(),
        ensures
            final(self).wf(),
            final(self).position@ == if (id.0 as int) < old(self).len() {
                old(self).position@.update(id.0 as int, Some(pos))
            } else {
                old(self).position@
            },
            (id.0 as int) < old(self).len() ==> final(self).spec_pos(id) == Some(pos),
            final(self).next_id == old(self).next_id,
            final(self).player == old(self).player,
            final(self).alive == old(self).alive,
            final(self).blocks_movement == old(self).blocks_movement,
            final(self).glyph == old(self).glyph,
            final(self).fg == old(self).fg,
            final(self).name == old(self).name,
            final(self).npc_kind == old(self).npc_kind,
            final(self).item == old(self).item,
            final(self).is_container == old(self).is_container,
            final(self).combat_stats == old(self).combat_stats,
            final(self).npc_brain == old(self).npc_brain,
    {
        let i = id.0 as usize;
        if i < self.position.len() {
            self.position.set(i, Some(pos));
        }
    }

    /// The live entity in the lowest slot at `(x, y)`.
    pub fn occupant_at(&self, x: i32, y: i32) -> (r: Option<EntityId>)
        requires
            self.wf(),
        ensures
            r == (match self.spec_first_occupant_at(x, y) {
                Some(j) => Some(EntityId(j as u32)),
                None => None,
            }),
    {
        let ghost p = |j: int| self.occupies(j, x, y);
        let mut i: usize = 0;
        while i < self.alive.len()
            invariant
                self.wf(),
                i <= self.len(),
                forall|k: int| 0 <= k < i ==> !#[trigger] p(k),
                p == (|j: int| self.occupies(j, x, y)),
            decreases self.len() - i,
        {
            if self.alive[i] && self.position[i] == Some(GridPos { x, y }) {
                proof { lemma_first_match_is(self.len(), p, i as int); }
                return Some(EntityId(i as u32));
            }
            i = i + 1;
        }
        proof { lemma_first_match_none(self.len(), p); }
        None
    }

    /// The actor (entity with an `npc_kind`) in the lowest live slot at `(x, y)`.
    pub fn first_npc_at(&self, x: i32, y: i32) -> (r: Option<EntityId>)
        requires
            self.wf(),
        ensures
            r == (match self.spec_first_npc_at(x, y) {
                Some(j) => Some(EntityId(j as u32)),
                None => None,
            }),
    {
        let ghost p = |j: int| self.occupies(j, x, y) && self.npc_kind@[j] is Some;
        let mut i: usize = 0;
        while i < self.alive.len()
            invariant
                self.wf(),
                i <= self.len(),
                forall|k: int| 0 <= k < i ==> !#[trigger] p(k),
                p == (|j: int| self.occupies(j, x, y) && self.npc_kind@[j] is Some),
            decreases self.len() - i,
        {
            if self.alive[i] && self.position[i] == Some(GridPos { x, y }) && self.npc_kind[i].is_some() {
                proof { lemma_first_match_is(self.len(), p, i as int); }
                return Some(EntityId(i as u32));
            }
            i = i + 1;
        }
        proof { lemma_first_match_none(self.len(), p); }
        None
    }

    /// The container in the lowest live slot at `(x, y)`.
    pub fn first_container_at(&self, x: i32, y: i32) -> (r: Option<EntityId>)
        requires
            self.wf(),
        ensures
            r == (match self.spec_first_container_at(x, y) {
                Some(j) => Some(EntityId(j as u32)),
                None => None,
            }),
    {
        let ghost p = |j: int| self.occupies(j, x, y) && self.is_container@[j];
        let mut i: usize = 0;
        while i < self.alive.len()
            invariant
                self.wf(),
                i <= self.len(),
                forall|k: int| 0 <= k < i ==> !#[trigger] p(k),
                p == (|j: int| self.occupies(j, x, y) && self.is_container@[j]),
            decreases self.len() - i,
        {
            if self.alive[i] && self.position[i] == Some(GridPos { x, y }) && self.is_container[i] {
                proof { lemma_first_match_is(self.len(), p, i as int); }
                return Some(EntityId(i as u32));
            }
            i = i + 1;
        }
        proof { lemma_first_match_none(self.len(), p); }
        None
    }

    /// Whether an actor (ignoring `ignore` itself) may step onto `dest`.
    pub fn can_move_to(&self, map_blocked: bool, dest: GridPos, ignore: Option<EntityId>) -> (b: bool)
        requires
            self.wf(),
        ensures
            b == self.spec_can_move_to(map_blocked, dest, ignore),
    {
        if map_blocked {
            return false;
        }
        let mut i: usize = 0;
        while i < self.alive.len()
            invariant
                self.wf(),
                i <= self.len(),
                forall|j: int|
                    0 <= j < i && #[trigger] self.occupies(j, dest.x, dest.y) && ignore != Some(
                        EntityId(j as u32),
                    ) ==> !self.blocks_movement@[j],
            decreases self.len() - i,
        {
            if self.alive[i] && self.position[i] == Some(dest) {
                let oid = EntityId(i as u32);
                let ignored = match ignore {
                    Some(ig) => ig.0 == oid.0,
                    None => false,
                };
                if !ignored && self.blocks_movement[i] {
                    assert(self.occupies(i as int, dest.x, dest.y));
                    return false;
                }
            }
            i = i + 1;
        }
        true
    }

    /// Replaces the combat stats of `id` (no effect when the slot does not exist).
    pub fn set_stats(&mut self, id: EntityId, stats: ActorStats)
        requires
            old(self).wf(),
        ensures
            final(self).wf(),
            final(self).combat_stats@ == if (id.0 as int) < old(self).len() {
                old(self).combat_stats@.update(id.0 as int, stats)
            } else {
                old(self).combat_stats@
            },
            final(self).next_id == old(self).next_id,
            final(self).player == old(self).player,
            final(self).alive == old(self).alive,
            final(self).position == old(self).position,
            final(self).blocks_movement == old(self).blocks_movement,
            final(self).glyph == old(self).glyph,
            final(self).fg == old(self).fg,
            final(self).name == old(self).name,
            final(self).npc_kind == old(self).npc_kind,
            final(self).item == old(self).item,
            final(self).is_container == old(self).is_container,
            final(self).npc_brain == old(self).npc_brain,
    {
        let i = id.0 as usize;
        if i < self.combat_stats.len() {
            self.combat_stats.set(i, stats);
        }
    }

    pub fn stats(&self, id: EntityId) -> (s: Option<ActorStats>)
        ensures
            s == self.spec_stats(id),
    {
        let i = id.0 as usize;
        if i < self.combat_stats.len() {
            Some(self.combat_stats[i])
        } else {
            None
        }
    }

    /// Mutable access to the combat stats of `id`.
    pub fn stats_mut(&mut self, id: EntityId) -> (s: Option<&mut ActorStats>)
        ensures
            (id.0 as int) < old(self).combat_stats@.len() <==> s is Some,
            s matches Some(r) ==> *r == old(self).combat_stats@[id.0 as int] && final(self).combat_stats@
                == old(self).combat_stats@.update(id.0 as int, *final(r)),
            s is None ==> final(self).combat_stats@ == old(self).combat_stats@,
            final(self).next_id == old(self).next_id,
            final(self).player == old(self).player,
            final(self).alive == old(self).alive,
            final(self).position == old(self).position,
            final(self).blocks_movement == old(self).blocks_movement,
            final(self).glyph == old(self).glyph,
            final(self).fg == old(self).fg,
            final(self).name == old(self).name,
            final(self).npc_kind == old(self).npc_kind,
            final(self).item == old(self).item,
            final(self).is_container == old(self).is_container,
            final(self).npc_brain == old(self).npc_brain,
    {
        let i = id.0 as usize;
        if i < self.combat_stats.len() {
            Some(&mut self.combat_stats[i])
        } else {
            None
        }
    }
}

impl Default for EntityArena {
    fn default() -> (a: EntityArena)
        ensures
            a.wf(),
            a.len() == 0,
            a.next_id == 0,
            a.player is None,
    {
        EntityArena::new()
    }
}

} // verus!

verus! {

impl EntityArena {
    /// `self` and `other` hold the same contents.
    pub open spec fn same_as(&self, other: &EntityArena) -> bool {
        &&& self.next_id == other.next_id
        &&& self.player == other.player
        &&& self.alive@ == other.alive@
        &&& self.position@ == other.position@
        &&& self.blocks_movement@ == other.blocks_movement@
        &&& self.glyph@ == other.glyph@
        &&& self.fg@ == other.fg@
        &&& self.name@ == other.name@
        &&& self.npc_kind@ == other.npc_kind@
        &&& self.item@ == other.item@
        &&& self.is_container@ == other.is_container@
        &&& self.combat_stats@ == other.combat_stats@
        &&& self.npc_brain@ == other.npc_brain@
    }

    /// `self` equals `other` except for the positions.
    pub open spec fn same_but_positions(&self, other: &EntityArena) -> bool {
        &&& self.next_id == other.next_id
        &&& self.player == other.player
        &&& self.alive@ == other.alive@
        &&& self.blocks_movement@ == other.blocks_movement@
        &&& self.glyph@ == other.glyph@
        &&& self.fg@ == other.fg@
        &&& self.name@ == other.name@
        &&& self.npc_kind@ == other.npc_kind@
        &&& self.item@ == other.item@
        &&& self.is_container@ == other.is_container@
        &&& self.combat_stats@ == other.combat_stats@
        &&& self.npc_brain@ == other.npc_brain@
    }

    /// `self` equals `other` except for the NPC brains.
    pub open spec fn same_but_brains(&self, other: &EntityArena) -> bool {
        &&& self.next_id == other.next_id
        &&& self.player == other.player
        &&& self.alive@ == other.alive@
        &&& self.position@ == other.position@
        &&& self.blocks_movement@ == other.blocks_movement@
        &&& self.glyph@ == other.glyph@
        &&& self.fg@ == other.fg@
        &&& self.name@ == other.name@
        &&& self.npc_kind@ == other.npc_kind@
        &&& self.item@ == other.item@
        &&& self.is_container@ == other.is_container@
        &&& self.combat_stats@ == other.combat_stats@
    }
}

} // verus!
