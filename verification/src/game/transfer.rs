//! The item transfer screen between the player and a container: switching sides, moving
//! the cursors, and moving a whole stack across.

use vstd::prelude::*;

use crate::content::ContentRuntimeHooks;
use crate::item::{first_loose_stack, Inventory, ItemStack};
use crate::narrative::{ContainerInventory, NarrativeState};
use crate::search::{first_match, lemma_first_match_is, lemma_first_match_none};
use super::key_commands::{GameCommand, GameInput};
use super::mode_input::{mode_closed, modes_set, with_top};
use super::modes::{GameMode, TransferFocus};
use super::state::Game;

verus! {

/// Slot of `container`'s inventory among the container inventories.
pub open spec fn container_slot(cs: Seq<ContainerInventory>, container: u32) -> Option<int> {
    first_match(cs.len() as int, |j: int| cs[j].container == container)
}

/// `after` holds an inventory for `container`: unchanged when one was there, otherwise an
/// empty one is appended.
pub open spec fn container_ensured(before: Seq<ContainerInventory>, after: Seq<ContainerInventory>, container: u32) -> bool {
    match container_slot(before, container) {
        Some(_) => after == before,
        None => {
            &&& after.len() == before.len() + 1
            &&& after.drop_last() == before
            &&& after.last().container == container
            &&& after.last().inventory.stacks@.len() == 0
        },
    }
}

/// Number of stacks in `container`'s inventory (0 without one).
pub open spec fn container_len(cs: Seq<ContainerInventory>, container: u32) -> int {
    match container_slot(cs, container) {
        Some(k) => cs[k].inventory.stacks@.len() as int,
        None => 0,
    }
}

/// The last index of a list of `n` entries (0 for an empty one).
pub open spec fn last_of(n: int) -> int {
    if n > 0 { n - 1 } else { 0 }
}

/// `c` moved one step up, kept on a list of `n` entries.
pub open spec fn cursor_up(c: int, n: int) -> int {
    let d = if c > 0 { c - 1 } else { 0 };
    if d < last_of(n) { d } else { last_of(n) }
}

/// `c` moved one step down, kept on a list of `n` entries.
pub open spec fn cursor_down(c: int, n: int) -> int {
    if c + 1 < last_of(n) { c + 1 } else { last_of(n) }
}

/// `c` kept on a list of `n` entries.
pub open spec fn cursor_kept(c: int, n: int) -> int {
    if c < last_of(n) { c } else { last_of(n) }
}

/// `after` is `before` with `count` of `id` added the way [`Inventory::add`] adds: merged
/// into the first loose stack of that id (saturating), or appended as a new loose stack.
pub open spec fn stacks_added(before: Seq<ItemStack>, after: Seq<ItemStack>, id: Seq<char>, count: u32) -> bool {
    match first_loose_stack(before, id) {
        Some(i) => {
            &&& 0 <= i < before.len()
            &&& before[i].id@ == id
            &&& before[i].equipped is None
            &&& after.len() == before.len()
            &&& after[i].id@ == id
            &&& after[i].equipped is None
            &&& after[i].count == (if before[i].count + count > u32::MAX { u32::MAX as int } else { before[i].count + count })
            &&& forall|j: int| 0 <= j < before.len() && j != i ==> after[j] == before[j]
        },
        None => {
            &&& after.len() == before.len() + 1
            &&& after.last().id@ == id
            &&& after.last().count == count
            &&& after.last().equipped is None
            &&& forall|j: int| 0 <= j < before.len() ==> after[j] == before[j]
        },
    }
}

/// Only the mode stack and the inventories of `after` differ from `before`.
pub open spec fn transfer_frame<H: ContentRuntimeHooks>(before: &Game<H>, after: &Game<H>) -> bool {
    &&& *after == (Game { modes: after.modes, narrative: after.narrative, ..*before })
    &&& after.narrative.quests == before.narrative.quests
    &&& after.narrative.quest_stages == before.narrative.quest_stages
    &&& after.narrative.quest_journal == before.narrative.quest_journal
}

/// A list key on the transfer screen `top`: the container gets an inventory if it had
/// none, and the focused side's cursor moves by `f` within that side's list.
pub open spec fn transfer_cursor_moved<H: ContentRuntimeHooks>(
    before: &Game<H>,
    after: &Game<H>,
    up: bool,
) -> bool {
    let s = before.modes.stack@;
    if s.len() > 0 && s.last() is ItemTransfer {
        let top = s.last();
        let container = top->container;
        let cs = after.narrative.container_inventories@;
        let pn = before.narrative.inventory.stacks@.len() as int;
        let cn = container_len(cs, container.0);
        let mv = |c: int, n: int| if up { cursor_up(c, n) } else { cursor_down(c, n) };
        &&& transfer_frame(before, after)
        &&& after.narrative.inventory.stacks@ == before.narrative.inventory.stacks@
        &&& container_ensured(before.narrative.container_inventories@, cs, container.0)
        &&& after.modes.stack@ == with_top(
            s,
            match top->focus {
                TransferFocus::Player => GameMode::ItemTransfer {
                    container,
                    focus: top->focus,
                    cursor_player: mv(top->cursor_player as int, pn) as usize,
                    cursor_container: top->cursor_container,
                },
                TransferFocus::Container => GameMode::ItemTransfer {
                    container,
                    focus: top->focus,
                    cursor_player: top->cursor_player,
                    cursor_container: mv(top->cursor_container as int, cn) as usize,
                },
            },
        )
    } else {
        *after == *before
    }
}

/// Confirm on the transfer screen: the container gets an inventory if it had none; the
/// focused stack (when the cursor is on one) leaves its side whole and is added to the
/// other side; both cursors are then kept on their lists.
pub open spec fn transfer_confirmed<H: ContentRuntimeHooks>(before: &Game<H>, after: &Game<H>) -> bool {
    let s = before.modes.stack@;
    if s.len() > 0 && s.last() is ItemTransfer {
        let top = s.last();
        let container = top->container;
        let cs = after.narrative.container_inventories@;
        let p0 = before.narrative.inventory.stacks@;
        let p1 = after.narrative.inventory.stacks@;
        &&& transfer_frame(before, after)
        &&& exists|cs0: Seq<ContainerInventory>| #[trigger] container_ensured(before.narrative.container_inventories@, cs0, container.0) && {
            let k = container_slot(cs0, container.0)->0;
            let c0 = cs0[k].inventory.stacks@;
            let c1 = cs[k].inventory.stacks@;
            &&& container_slot(cs0, container.0) is Some
            &&& cs.len() == cs0.len()
            &&& cs[k].container == container.0
            &&& forall|j: int| 0 <= j < cs0.len() && j != k ==> cs[j] == cs0[j]
            &&& match top->focus {
                TransferFocus::Player => if top->cursor_player < p0.len() {
                    p1 == p0.remove(top->cursor_player as int) && stacks_added(
                        c0,
                        c1,
                        p0[top->cursor_player as int].id@,
                        p0[top->cursor_player as int].count,
                    )
                } else {
                    p1 == p0 && c1 == c0
                },
                TransferFocus::Container => if top->cursor_container < c0.len() {
                    c1 == c0.remove(top->cursor_container as int) && stacks_added(
                        p0,
                        p1,
                        c0[top->cursor_container as int].id@,
                        c0[top->cursor_container as int].count,
                    )
                } else {
                    p1 == p0 && c1 == c0
                },
            }
            &&& after.modes.stack@ == with_top(
                s,
                GameMode::ItemTransfer {
                    container,
                    focus: top->focus,
                    cursor_player: cursor_kept(top->cursor_player as int, p1.len() as int) as usize,
                    cursor_container: cursor_kept(top->cursor_container as int, c1.len() as int) as usize,
                },
            )
        }
    } else {
        *after == *before
    }
}

/// The transfer screen after input `ev`: back closes it, the side key switches the
/// focused side, the list keys move the focused cursor, confirm moves the focused stack
/// across; anything else changes nothing.
pub open spec fn item_transfer_handled<H: ContentRuntimeHooks>(before: &Game<H>, after: &Game<H>, ev: GameInput) -> bool {
    let s = before.modes.stack@;
    match ev {
        GameInput::Command(GameCommand::Back) => mode_closed(before, after),
        GameInput::Command(GameCommand::TransferFocusSide) => if s.len() > 0 && s.last() is ItemTransfer {
            modes_set(
                before,
                after,
                with_top(
                    s,
                    GameMode::ItemTransfer {
                        container: s.last()->container,
                        focus: match s.last()->focus {
                            TransferFocus::Player => TransferFocus::Container,
                            TransferFocus::Container => TransferFocus::Player,
                        },
                        cursor_player: s.last()->cursor_player,
                        cursor_container: s.last()->cursor_container,
                    },
                ),
            )
        } else {
            *after == *before
        },
        GameInput::Command(GameCommand::ListPrev) => transfer_cursor_moved(before, after, true),
        GameInput::Command(GameCommand::ListNext) => transfer_cursor_moved(before, after, false),
        GameInput::Command(GameCommand::Confirm) => transfer_confirmed(before, after),
        _ => *after == *before,
    }
}

/// Slot of `container`'s inventory, appending an empty one when it has none.
pub(crate) fn ensure_container(n: &mut NarrativeState, container: u32) -> (k: usize)
    ensures
        container_ensured(old(n).container_inventories@, final(n).container_inventories@, container),
        container_slot(final(n).container_inventories@, container) == Some(k as int),
        k < final(n).container_inventories@.len(),
        final(n).container_inventories@[k as int].container == container,
        final(n).inventory == old(n).inventory,
        final(n).quests == old(n).quests,
        final(n).quest_stages == old(n).quest_stages,
        final(n).quest_journal == old(n).quest_journal,
{
    let ghost cs = n.container_inventories@;
    let ghost p = |j: int| cs[j].container == container;
    let mut i: usize = 0;
    while i < n.container_inventories.len()
        invariant
            i <= cs.len(),
            n.container_inventories@ == cs,
            p == (|j: int| cs[j].container == container),
            forall|j: int| 0 <= j < i ==> !#[trigger] p(j),
        decreases cs.len() - i,
    {
        if n.container_inventories[i].container == container {
            proof { lemma_first_match_is(cs.len() as int, p, i as int); }
            return i;
        }
        i = i + 1;
    }
    proof { lemma_first_match_none(cs.len() as int, p); }
    n.container_inventories.push(ContainerInventory { container, inventory: Inventory::new() });
    proof {
        let cs1 = n.container_inventories@;
        let p1 = |j: int| cs1[j].container == container;
        assert forall|j: int| 0 <= j < cs.len() implies !#[trigger] p1(j) by {
            assert(!p(j));
        }
        lemma_first_match_is(cs1.len() as int, p1, cs.len() as int);
        assert(cs1.drop_last() =~= cs);
    }
    i
}

fn last_index(n: usize) -> (r: usize)
    ensures
        r == last_of(n as int),
{
    if n > 0 { n - 1 } else { 0 }
}

/// `after` is `before` with the transfer screen of container `c` opened on top, the
/// container given an empty inventory when it has none.
pub open spec fn transfer_opened<H: ContentRuntimeHooks>(before: &Game<H>, after: &Game<H>, c: crate::entity::EntityId) -> bool {
    &&& *after == (Game { narrative: after.narrative, modes: after.modes, ..*before })
    &&& after.narrative == (NarrativeState { container_inventories: after.narrative.container_inventories, ..before.narrative })
    &&& container_ensured(before.narrative.container_inventories@, after.narrative.container_inventories@, c.0)
    &&& after.modes.stack@ == before.modes.stack@.push(
        GameMode::ItemTransfer { container: c, focus: TransferFocus::Player, cursor_player: 0, cursor_container: 0 },
    )
}

impl<H: ContentRuntimeHooks> Game<H> {
    /// Opens the transfer screen of container `c` (see [`transfer_opened`]).
    pub fn start_item_transfer(&mut self, c: crate::entity::EntityId)
        ensures
            transfer_opened(old(self), final(self), c),
    {
        ensure_container(&mut self.narrative, c.0);
        self.modes.push(GameMode::ItemTransfer { container: c, focus: TransferFocus::Player, cursor_player: 0, cursor_container: 0 });
    }

    /// The transfer screen (see [`item_transfer_handled`]).
    pub fn handle_item_transfer(&mut self, ev: GameInput)
        requires
            old(self).wf(),
        ensures
            final(self).wf(),
            item_transfer_handled(old(self), final(self), ev),
    {
        let top = match self.modes.current() {
            Some(GameMode::ItemTransfer { container, focus, cursor_player, cursor_container }) => Some(
                (*container, *focus, *cursor_player, *cursor_container),
            ),
            _ => None,
        };
        match ev {
            GameInput::Command(GameCommand::Back) => {
                let _ = self.modes.pop();
            },
            GameInput::Command(GameCommand::TransferFocusSide) => {
                if let Some((container, focus, cp, cc)) = top {
                    let k = self.modes.stack.len() - 1;
                    let nf = match focus {
                        TransferFocus::Player => TransferFocus::Container,
                        TransferFocus::Container => TransferFocus::Player,
                    };
                    self.modes.stack.set(
                        k,
                        GameMode::ItemTransfer { container, focus: nf, cursor_player: cp, cursor_container: cc },
                    );
                }
            },
            GameInput::Command(GameCommand::ListPrev) => self.transfer_move_cursor(true),
            GameInput::Command(GameCommand::ListNext) => self.transfer_move_cursor(false),
            GameInput::Command(GameCommand::Confirm) => self.transfer_confirm(),
            _ => {},
        }
    }

    fn transfer_move_cursor(&mut self, up: bool)
        requires
            old(self).wf(),
        ensures
            final(self).wf(),
            transfer_cursor_moved(old(self), final(self), up),
    {
        let (container, focus, cp, cc) = match self.modes.current() {
            Some(GameMode::ItemTransfer { container, focus, cursor_player, cursor_container }) => (
                *container,
                *focus,
                *cursor_player,
                *cursor_container,
            ),
            _ => { return; },
        };
        let pn = self.narrative.inventory.stacks.len();
        let slot = ensure_container(&mut self.narrative, container.0);
        let cn = self.narrative.container_inventories[slot].inventory.stacks.len();
        let k = self.modes.stack.len() - 1;
        let m = match focus {
            TransferFocus::Player => {
                let last = last_index(pn);
                let c = if up {
                    let d = if cp > 0 { cp - 1 } else { 0 };
                    if d < last { d } else { last }
                } else {
                    if cp < last { cp + 1 } else { last }
                };
                GameMode::ItemTransfer { container, focus, cursor_player: c, cursor_container: cc }
            },
            TransferFocus::Container => {
                let last = last_index(cn);
                let c = if up {
                    let d = if cc > 0 { cc - 1 } else { 0 };
                    if d < last { d } else { last }
                } else {
                    if cc < last { cc + 1 } else { last }
                };
                GameMode::ItemTransfer { container, focus, cursor_player: cp, cursor_container: c }
            },
        };
        self.modes.stack.set(k, m);
    }

    fn transfer_confirm(&mut self)
        requires
            old(self).wf(),
        ensures
            final(self).wf(),
            transfer_confirmed(old(self), final(self)),
    {
        let (container, focus, cp, cc) = match self.modes.current() {
            Some(GameMode::ItemTransfer { container, focus, cursor_player, cursor_container }) => (
                *container,
                *focus,
                *cursor_player,
                *cursor_container,
            ),
            _ => { return; },
        };
        let slot = ensure_container(&mut self.narrative, container.0);
        let ghost cs0 = self.narrative.container_inventories@;
        let ghost p0 = self.narrative.inventory.stacks@;
        let mut ci = self.narrative.container_inventories.remove(slot);
        let ghost c0 = ci.inventory.stacks@;
        match focus {
            TransferFocus::Player => {
                if cp < self.narrative.inventory.stacks.len() {
                    let st = self.narrative.inventory.stacks.remove(cp);
                    ci.inventory.add(st.id.as_str(), st.count);
                }
            },
            TransferFocus::Container => {
                if cc < ci.inventory.stacks.len() {
                    let st = ci.inventory.stacks.remove(cc);
                    self.narrative.inventory.add(st.id.as_str(), st.count);
                }
            },
        }
        let ghost c1 = ci.inventory.stacks@;
        let cn = ci.inventory.stacks.len();
        self.narrative.container_inventories.insert(slot, ci);
        let pn = self.narrative.inventory.stacks.len();
        let lp = last_index(pn);
        let lc = last_index(cn);
        let k = self.modes.stack.len() - 1;
        self.modes.stack.set(
            k,
            GameMode::ItemTransfer {
                container,
                focus,
                cursor_player: if cp < lp { cp } else { lp },
                cursor_container: if cc < lc { cc } else { lc },
            },
        );
        proof {
            let cs = self.narrative.container_inventories@;
            assert(cs =~= cs0.update(slot as int, cs[slot as int]));
            assert(cs[slot as int].inventory.stacks@ == c1);
            assert(container_ensured(old(self).narrative.container_inventories@, cs0, container.0));
            assert(container_slot(cs0, container.0) == Some(slot as int));
            assert(cs0[slot as int].inventory.stacks@ == c0);
            assert(cs.len() == cs0.len());
            assert(cs[slot as int].container == container.0);
            assert(forall|j: int| 0 <= j < cs0.len() && j != slot ==> cs[j] == cs0[j]);
            assert(transfer_frame(old(self), &*self));
            assert(self.modes.stack@ == with_top(
                old(self).modes.stack@,
                GameMode::ItemTransfer {
                    container,
                    focus,
                    cursor_player: cursor_kept(cp as int, self.narrative.inventory.stacks@.len() as int) as usize,
                    cursor_container: cursor_kept(cc as int, c1.len() as int) as usize,
                },
            ));
            match focus {
                TransferFocus::Player => {
                    if cp < p0.len() {
                        assert(self.narrative.inventory.stacks@ == p0.remove(cp as int));
                        assert(stacks_added(c0, c1, p0[cp as int].id@, p0[cp as int].count));
                    } else {
                        assert(self.narrative.inventory.stacks@ == p0);
                        assert(c1 == c0);
                    }
                },
                TransferFocus::Container => {
                    if cc < c0.len() {
                        assert(c1 == c0.remove(cc as int));
                        assert(stacks_added(p0, self.narrative.inventory.stacks@, c0[cc as int].id@, c0[cc as int].count));
                    } else {
                        assert(self.narrative.inventory.stacks@ == p0);
                        assert(c1 == c0);
                    }
                },
            }
        }
    }
}

} // verus!
