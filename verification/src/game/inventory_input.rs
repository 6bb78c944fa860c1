//! The player's inventory screen: moving the selection, using consumables, wearing
//! equipment and loading the quiver.

use vstd::prelude::*;

use crate::content::ContentRuntimeHooks;
use crate::input::{InputEvent, MouseButton};
use crate::item::{first_def_index, first_loose_stack, Inventory, ItemCategory, ItemDef, ItemStack, StackEquipped};
use crate::narrative::{item_total, NarrativeState};
use crate::narrative_effects::stacks_taken;
use super::key_commands::{GameCommand, GameInput};
use super::mode_input::{debug_toggled, line_logged, mode_closed, modes_set, with_top};
use super::modes::GameMode;
use super::state::{lemma_lines_push, lines, log_line, Game};

verus! {

/// Stacks `s1` are `s0` with stack `idx` put in place `eq`, or taken out of it when it was
/// there; any other stack in that place leaves it (returns to the pack).
pub open spec fn place_toggled(s0: Seq<ItemStack>, s1: Seq<ItemStack>, idx: int, eq: StackEquipped) -> bool {
    if s0[idx].equipped == Some(eq) {
        s1 == s0.update(idx, ItemStack { equipped: None, ..s0[idx] })
    } else {
        &&& s1.len() == s0.len()
        &&& s1[idx] == ItemStack { equipped: Some(eq), ..s0[idx] }
        &&& forall|j: int|
            0 <= j < s0.len() && j != idx ==> s1[j] == if s0[j].equipped == Some(eq) {
                ItemStack { equipped: None, ..s0[j] }
            } else {
                s0[j]
            }
    }
}

/// `after` is `before` with only the player's stacks replaced, by `s1`.
pub open spec fn stacks_set<H: ContentRuntimeHooks>(before: &Game<H>, after: &Game<H>, s1: Seq<ItemStack>) -> bool {
    &&& *after == (Game { narrative: after.narrative, ..*before })
    &&& after.narrative == (NarrativeState { inventory: after.narrative.inventory, ..before.narrative })
    &&& after.narrative.inventory.stacks@ == s1
}

/// The definition of item `id` in the pack.
pub open spec fn def_of<H: ContentRuntimeHooks>(g: &Game<H>, id: Seq<char>) -> Option<ItemDef> {
    match first_def_index(g.content.item_defs@, id) {
        Some(i) => Some(g.content.item_defs@[i]),
        None => None,
    }
}

/// `after` is `before` with the inventory cursor kept within the stacks (nothing when the
/// inventory is not the active mode).
pub open spec fn cursor_clamped<H: ContentRuntimeHooks>(before: &Game<H>, after: &Game<H>) -> bool {
    let s = before.modes.stack@;
    let n = before.narrative.inventory.stacks@.len() as int;
    let last = if n > 0 { n - 1 } else { 0 };
    if s.len() > 0 && s.last() is Inventory {
        let c = s.last()->Inventory_cursor as int;
        modes_set(before, after, with_top(s, GameMode::Inventory { cursor: (if c < last { c } else { last }) as usize }))
    } else {
        *after == *before
    }
}

/// `after` is `before` with the inventory cursor at `c`.
pub open spec fn inv_cursor_set<H: ContentRuntimeHooks>(before: &Game<H>, after: &Game<H>, c: int) -> bool {
    modes_set(before, after, with_top(before.modes.stack@, GameMode::Inventory { cursor: c as usize }))
}

/// Using stack `idx`: an unknown item says so; a consumable loses one (from its first loose
/// stack) and says `"[+] Used <name> (no effect yet)."`; anything else says it is not
/// consumable; then the cursor is kept within the stacks.
pub open spec fn stack_used<H: ContentRuntimeHooks>(before: &Game<H>, after: &Game<H>, idx: int) -> bool {
    let st = before.narrative.inventory.stacks@[idx];
    match def_of(before, st.id@) {
        None => line_logged(before, after, st.id@ + ": unknown item."@),
        Some(d) => exists|mid: Game<H>|
            #[trigger] cursor_clamped(&mid, after) && if d.category == ItemCategory::Consumable {
                if first_loose_stack(before.narrative.inventory.stacks@, st.id@) is Some {
                    exists|g1: Game<H>|
                        #[trigger] stacks_set(before, &g1, g1.narrative.inventory.stacks@) && stacks_taken(
                            before.narrative.inventory.stacks@,
                            g1.narrative.inventory.stacks@,
                            st.id@,
                        ) && line_logged(&g1, &mid, "[+] Used "@ + d.name@ + " (no effect yet)."@)
                } else {
                    mid == *before
                }
            } else {
                line_logged(before, &mid, "That item is not consumable."@)
            },
    }
}

/// Equipping stack `idx`: an unknown item says so; a wearable item of a slot toggles in
/// that slot (see [`place_toggled`]) and says `"[+] Equipped <name>."` or
/// `"[-] Unequipped <name>."`; ammunition likewise toggles in the quiver (`"[+] Loaded
/// <name> into quiver."` / `"[-] Unloaded <name> from quiver."`); with none of the item
/// held, `"Could not equip."` / `"Could not load quiver."`; anything else explains the
/// keys; then (but for the unknown item and the refusals) the cursor is kept within the
/// stacks.
pub open spec fn stack_equipped<H: ContentRuntimeHooks>(before: &Game<H>, after: &Game<H>, idx: int) -> bool {
    let s0 = before.narrative.inventory.stacks@;
    let st = s0[idx];
    let held = item_total(s0, st.id@) >= 1;
    match def_of(before, st.id@) {
        None => line_logged(before, after, st.id@ + ": unknown item."@),
        Some(d) => match d.category {
            ItemCategory::Equippable(slot) => if !held {
                line_logged(before, after, "Could not equip."@)
            } else {
                let off = st.equipped == Some(StackEquipped::Wear(slot));
                exists|g1: Game<H>, mid: Game<H>|
                    #![trigger stacks_set(before, &g1, g1.narrative.inventory.stacks@), cursor_clamped(&mid, after)]
                    stacks_set(before, &g1, g1.narrative.inventory.stacks@) && place_toggled(
                        s0,
                        g1.narrative.inventory.stacks@,
                        idx,
                        StackEquipped::Wear(slot),
                    ) && line_logged(
                        &g1,
                        &mid,
                        if off { "[-] Unequipped "@ + d.name@ + "."@ } else { "[+] Equipped "@ + d.name@ + "."@ },
                    ) && cursor_clamped(&mid, after)
            },
            ItemCategory::Ammo => if !held {
                line_logged(before, after, "Could not load quiver."@)
            } else {
                let off = st.equipped == Some(StackEquipped::Quiver);
                exists|g1: Game<H>, mid: Game<H>|
                    #![trigger stacks_set(before, &g1, g1.narrative.inventory.stacks@), cursor_clamped(&mid, after)]
                    stacks_set(before, &g1, g1.narrative.inventory.stacks@) && place_toggled(
                        s0,
                        g1.narrative.inventory.stacks@,
                        idx,
                        StackEquipped::Quiver,
                    ) && line_logged(
                        &g1,
                        &mid,
                        if off {
                            "[-] Unloaded "@ + d.name@ + " from quiver."@
                        } else {
                            "[+] Loaded "@ + d.name@ + " into quiver."@
                        },
                    ) && cursor_clamped(&mid, after)
            },
            _ => exists|mid: Game<H>|
                #[trigger] line_logged(before, &mid, "Use e to equip weapons or load ammo; u uses consumables."@)
                    && cursor_clamped(&mid, after),
        },
    }
}

/// Puts stack `idx` in place `eq`, or takes it out (see [`place_toggled`]).
fn toggle_place(inv: &mut Inventory, idx: usize, eq: StackEquipped)
    requires
        idx < old(inv).stacks@.len(),
    ensures
        place_toggled(old(inv).stacks@, final(inv).stacks@, idx as int, eq),
{
    if inv.stacks[idx].equipped == Some(eq) {
        let mut s = inv.stacks[idx].clone();
        s.equipped = None;
        inv.stacks.set(idx, s);
        return;
    }
    let ghost s0 = inv.stacks@;
    let mut j: usize = 0;
    while j < inv.stacks.len()
        invariant
            idx < s0.len(),
            s0[idx as int].equipped != Some(eq),
            inv.stacks@.len() == s0.len(),
            j <= s0.len(),
            forall|k: int|
                0 <= k < j ==> inv.stacks@[k] == if k == idx {
                    ItemStack { equipped: Some(eq), ..s0[k] }
                } else if s0[k].equipped == Some(eq) {
                    ItemStack { equipped: None, ..s0[k] }
                } else {
                    s0[k]
                },
            forall|k: int| j <= k < s0.len() ==> inv.stacks@[k] == s0[k],
        decreases s0.len() - j,
    {
        if j == idx {
            let mut s = inv.stacks[j].clone();
            s.equipped = Some(eq);
            inv.stacks.set(j, s);
        } else if inv.stacks[j].equipped == Some(eq) {
            let mut s = inv.stacks[j].clone();
            s.equipped = None;
            inv.stacks.set(j, s);
        }
        j = j + 1;
    }
}

/// A left click on stack `i`: a consumable is used, equipment or ammunition is equipped,
/// an unknown item says so, anything else does nothing.
pub open spec fn stack_activated<H: ContentRuntimeHooks>(before: &Game<H>, after: &Game<H>, i: int) -> bool {
    let st = before.narrative.inventory.stacks@[i];
    match def_of(before, st.id@) {
        None => line_logged(before, after, st.id@ + ": unknown item."@),
        Some(d) => match d.category {
            ItemCategory::Consumable => stack_used(before, after, i),
            ItemCategory::Mundane => *after == *before,
            _ => stack_equipped(before, after, i),
        },
    }
}

/// The inventory screen after input `ev` (with `picked` the stack under the pointer):
/// back closes it, the list keys move the cursor within the stacks, `u` uses and `e`
/// equips the stack under the cursor (see [`stack_used`], [`stack_equipped`]), a hover on
/// a stack selects it and a left click selects and activates it (see
/// [`stack_activated`]); anything else changes nothing.
pub open spec fn inventory_handled<H: ContentRuntimeHooks>(
    before: &Game<H>,
    after: &Game<H>,
    ev: GameInput,
    picked: Option<usize>,
) -> bool {
    let n = before.narrative.inventory.stacks@.len() as int;
    let last = if n > 0 { n - 1 } else { 0 };
    let c = before.modes.stack@.last()->Inventory_cursor as int;
    let at = if c < last { c } else { last };
    match ev {
        GameInput::Command(GameCommand::ToggleDebug) => debug_toggled(before, after),
        GameInput::Command(GameCommand::Back) => mode_closed(before, after),
        GameInput::Command(GameCommand::ListPrev) => inv_cursor_set(before, after, if c > 0 { c - 1 } else { 0 }),
        GameInput::Command(GameCommand::ListNext) => inv_cursor_set(before, after, if c + 1 < last { c + 1 } else { last }),
        GameInput::Command(GameCommand::InventoryUse) => if n == 0 { *after == *before } else { stack_used(before, after, at) },
        GameInput::Command(GameCommand::InventoryEquip) => if n == 0 {
            *after == *before
        } else {
            stack_equipped(before, after, at)
        },
        GameInput::Raw(InputEvent::MouseMove { .. }) => if picked is Some && (picked->0 as int) < n {
            inv_cursor_set(before, after, picked->0 as int)
        } else {
            *after == *before
        },
        GameInput::Raw(InputEvent::MouseDown { button: MouseButton::Left, .. }) => if picked is Some && (picked->0 as int) < n {
            exists|mid: Game<H>| #[trigger] inv_cursor_set(before, &mid, picked->0 as int) && stack_activated(&mid, after, picked->0 as int)
        } else {
            *after == *before
        },
        _ => *after == *before,
    }
}

impl<H: ContentRuntimeHooks> Game<H> {
    /// Keeps the inventory cursor within the stacks (see [`cursor_clamped`]).
    fn clamp_inventory_cursor(&mut self)
        ensures
            cursor_clamped(old(self), final(self)),
    {
        let n = self.narrative.inventory.stacks.len();
        let last = if n > 0 { n - 1 } else { 0 };
        let ghost s = self.modes.stack@;
        let over = match self.modes.current() {
            Some(GameMode::Inventory { cursor }) => *cursor > last,
            _ => false,
        };
        if over {
            let k = self.modes.stack.len() - 1;
            self.modes.stack.set(k, GameMode::Inventory { cursor: last });
        } else {
            proof {
                if s.len() > 0 && s.last() is Inventory {
                    assert(with_top(s, s.last()) =~= s);
                }
            }
        }
    }

    /// Puts the inventory cursor at `c`.
    fn set_inventory_cursor(&mut self, c: usize)
        requires
            old(self).modes.stack@.len() > 0,
            old(self).modes.stack@.last() is Inventory,
        ensures
            inv_cursor_set(old(self), final(self), c as int),
    {
        match self.modes.current_mut() {
            Some(GameMode::Inventory { cursor }) => {
                *cursor = c;
            },
            _ => {},
        }
    }

    /// Appends `line` to the log.
    fn note(&mut self, line: String)
        ensures
            line_logged(old(self), final(self), line@),
    {
        proof { lemma_lines_push(self.log@, line); }
        self.log.push(line);
    }

    /// Uses stack `idx` (see [`stack_used`]).
    fn inventory_use_stack(&mut self, idx: usize)
        requires
            idx < old(self).narrative.inventory.stacks@.len(),
        ensures
            stack_used(old(self), final(self), idx as int),
    {
        let id = String::from_str(self.narrative.inventory.stacks[idx].id.as_str());
        let def = match self.content.item_def(id.as_str()) {
            Some(d) => d,
            None => {
                self.note(id.concat(": unknown item."));
                return;
            },
        };
        if def.category == ItemCategory::Consumable {
            let ghost g0 = *self;
            if self.narrative.take_one(id.as_str()) {
                let ghost g1 = *self;
                assert(stacks_set(&g0, &g1, g1.narrative.inventory.stacks@));
                self.note(String::from_str("[+] Used ").concat(def.name).concat(" (no effect yet)."));
            }
        } else {
            self.note(String::from_str("That item is not consumable."));
        }
        let ghost mid = *self;
        self.clamp_inventory_cursor();
        assert(cursor_clamped(&mid, &*self));
    }

    /// Equips stack `idx` (see [`stack_equipped`]).
    fn inventory_equip_stack(&mut self, idx: usize)
        requires
            idx < old(self).narrative.inventory.stacks@.len(),
        ensures
            stack_equipped(old(self), final(self), idx as int),
    {
        let id = String::from_str(self.narrative.inventory.stacks[idx].id.as_str());
        let equipped = self.narrative.inventory.stacks[idx].equipped;
        let def = match self.content.item_def(id.as_str()) {
            Some(d) => d,
            None => {
                self.note(id.concat(": unknown item."));
                return;
            },
        };
        proof {
            crate::narrative::lemma_item_total_nonneg(self.narrative.inventory.stacks@, id@);
        }
        match def.category {
            ItemCategory::Equippable(slot) => {
                if self.narrative.item_count(id.as_str()) < 1 {
                    self.note(String::from_str("Could not equip."));
                    return;
                }
                let off = equipped == Some(StackEquipped::Wear(slot));
                toggle_place(&mut self.narrative.inventory, idx, StackEquipped::Wear(slot));
                let ghost g1 = *self;
                let msg = if off {
                    String::from_str("[-] Unequipped ").concat(def.name).concat(".")
                } else {
                    String::from_str("[+] Equipped ").concat(def.name).concat(".")
                };
                self.note(msg);
                let ghost mid = *self;
                self.clamp_inventory_cursor();
                assert(stacks_set(old(self), &g1, g1.narrative.inventory.stacks@));
                assert(cursor_clamped(&mid, &*self));
            },
            ItemCategory::Ammo => {
                if self.narrative.item_count(id.as_str()) < 1 {
                    self.note(String::from_str("Could not load quiver."));
                    return;
                }
                let off = equipped == Some(StackEquipped::Quiver);
                toggle_place(&mut self.narrative.inventory, idx, StackEquipped::Quiver);
                let ghost g1 = *self;
                let msg = if off {
                    String::from_str("[-] Unloaded ").concat(def.name).concat(" from quiver.")
                } else {
                    String::from_str("[+] Loaded ").concat(def.name).concat(" into quiver.")
                };
                self.note(msg);
                let ghost mid = *self;
                self.clamp_inventory_cursor();
                assert(stacks_set(old(self), &g1, g1.narrative.inventory.stacks@));
                assert(cursor_clamped(&mid, &*self));
            },
            _ => {
                self.note(String::from_str("Use e to equip weapons or load ammo; u uses consumables."));
                let ghost mid = *self;
                self.clamp_inventory_cursor();
                assert(cursor_clamped(&mid, &*self));
            },
        }
    }

    /// A left click on stack `i` (see [`stack_activated`]).
    fn inventory_activate(&mut self, i: usize)
        requires
            i < old(self).narrative.inventory.stacks@.len(),
        ensures
            stack_activated(old(self), final(self), i as int),
    {
        let id = String::from_str(self.narrative.inventory.stacks[i].id.as_str());
        let def = match self.content.item_def(id.as_str()) {
            Some(d) => d,
            None => {
                self.note(id.concat(": unknown item."));
                return;
            },
        };
        match def.category {
            ItemCategory::Consumable => self.inventory_use_stack(i),
            ItemCategory::Mundane => {},
            _ => self.inventory_equip_stack(i),
        }
    }

    /// The inventory screen (see [`inventory_handled`]); `picked` is the stack the screen
    /// layout reports under the pointer.
    pub fn handle_inventory(&mut self, ev: GameInput, picked: Option<usize>)
        requires
            old(self).wf(),
            old(self).modes.stack@.len() > 0,
            old(self).modes.stack@.last() is Inventory,
        ensures
            final(self).wf(),
            inventory_handled(old(self), final(self), ev, picked),
    {
        let n = self.narrative.inventory.stacks.len();
        let last = if n > 0 { n - 1 } else { 0 };
        let c = match self.modes.current() {
            Some(GameMode::Inventory { cursor }) => *cursor,
            _ => {
                return;
            },
        };
        let at = if c < last { c } else { last };
        match ev {
            GameInput::Command(GameCommand::ToggleDebug) => {
                self.debug_overlay = !self.debug_overlay;
            },
            GameInput::Command(GameCommand::Back) => {
                let _ = self.modes.pop();
            },
            GameInput::Command(GameCommand::ListPrev) => {
                self.set_inventory_cursor(if c > 0 { c - 1 } else { 0 });
            },
            GameInput::Command(GameCommand::ListNext) => {
                self.set_inventory_cursor(if c < last { c + 1 } else { last });
            },
            GameInput::Command(GameCommand::InventoryUse) => {
                if n > 0 {
                    self.inventory_use_stack(at);
                }
            },
            GameInput::Command(GameCommand::InventoryEquip) => {
                if n > 0 {
                    self.inventory_equip_stack(at);
                }
            },
            GameInput::Raw(InputEvent::MouseMove { .. }) => {
                if let Some(i) = picked {
                    if i < n {
                        self.set_inventory_cursor(i);
                    }
                }
            },
            GameInput::Raw(InputEvent::MouseDown { button: MouseButton::Left, .. }) => {
                if let Some(i) = picked {
                    if i < n {
                        self.set_inventory_cursor(i);
                        let ghost mid = *self;
                        self.inventory_activate(i);
                        assert(inv_cursor_set(old(self), &mid, i as int));
                    }
                }
            },
            _ => {},
        }
    }
}

} // verus!
