//! Item definitions, stacks and inventories.

use vstd::prelude::*;

use crate::search::{first_match, lemma_first_match_is, lemma_first_match_none};
use crate::narrative::item_total;
use crate::text::str_eq;

verus! {

#[derive(Clone, Copy, Debug, PartialEq, Eq, Structural)]
pub enum EquipSlot {
    Ring,
    Weapon,
}

#[derive(Clone, Copy, Debug, PartialEq, Eq, Structural)]
pub enum WeaponKind {
    Melee,
    Bow,
}

/// Combat profile of an item that can be wielded.
#[derive(Clone, Copy, Debug, PartialEq, Eq, Structural)]
pub struct WeaponDef {
    pub kind: WeaponKind,
    pub to_hit: i8,
    pub damage_bonus: i8,
    pub range: u8,
}

#[derive(Clone, Copy, Debug, PartialEq, Eq, Structural)]
pub enum ItemCategory {
    Mundane,
    Consumable,
    Equippable(EquipSlot),
    Ammo,
}

/// Static definition of an item type.
#[derive(Clone, Copy, Debug)]
pub struct ItemDef {
    pub id: &'static str,
    pub name: &'static str,
    pub description: &'static str,
    pub glyph: char,
    pub category: ItemCategory,
    pub weapon: Option<WeaponDef>,
}

/// Where a stack is worn or held.
#[derive(Clone, Copy, Debug, PartialEq, Eq, Structural)]
pub enum StackEquipped {
    Wear(EquipSlot),
    Quiver,
}

#[derive(Debug)]
pub struct ItemStack {
    pub id: String,
    pub count: u32,
    pub equipped: Option<StackEquipped>,
}

impl Clone for ItemStack {
    fn clone(&self) -> (r: ItemStack)
        ensures
            r == *self,
    {
        ItemStack { id: self.id.clone(), count: self.count, equipped: self.equipped }
    }
}

impl ItemStack {
    pub fn new(id: &str, count: u32) -> (s: ItemStack)
        ensures
            s.id@ == id@,
            s.count == count,
            s.equipped.is_none(),
    {
        ItemStack { id: id.to_owned(), count, equipped: None }
    }
}

/// Read-only lookup over a static item table.
#[derive(Clone, Copy, Debug)]
pub struct ItemCatalog {
    pub defs: &'static [ItemDef],
}

/// Index of the first definition in `defs` whose id is `id`, if any.
pub open spec fn first_def_index(defs: Seq<ItemDef>, id: Seq<char>) -> Option<int> {
    first_match(defs.len() as int, |j: int| defs[j].id@ == id)
}

impl ItemCatalog {
    pub fn new(defs: &'static [ItemDef]) -> (c: ItemCatalog)
        ensures
            c.defs@ == defs@,
    {
        ItemCatalog { defs }
    }

    /// The first definition whose id equals `id`.
    pub fn get(&self, id: &str) -> (r: Option<&'static ItemDef>)
        ensures
            r matches Some(d) ==> first_def_index(self.defs@, id@) matches Some(i) && *d == self.defs@[i],
            r is None <==> first_def_index(self.defs@, id@) is None,
    {
        let ghost p = |j: int| self.defs@[j].id@ == id@;
        let mut i: usize = 0;
        while i < self.defs.len()
            invariant
                i <= self.defs@.len(),
                p == (|j: int| self.defs@[j].id@ == id@),
                forall|j: int| 0 <= j < i ==> !#[trigger] p(j),
            decreases self.defs@.len() - i,
        {
            if str_eq(self.defs[i].id, id) {
                proof { lemma_first_match_is(self.defs@.len() as int, p, i as int); }
                return Some(&self.defs[i]);
            }
            i = i + 1;
        }
        proof { lemma_first_match_none(self.defs@.len() as int, p); }
        None
    }
}

/// The player's (or a container's) list of item stacks.
#[derive(Clone, Debug)]
pub struct Inventory {
    pub stacks: Vec<ItemStack>,
}

/// Total count of the stacks in `stacks` that carry `id` and are in the quiver.
pub open spec fn quiver_total(stacks: Seq<ItemStack>, id: Seq<char>) -> int
    decreases stacks.len(),
{
    if stacks.len() == 0 {
        0
    } else {
        quiver_total(stacks.drop_last(), id) + if stacks.last().id@ == id && stacks.last().equipped
            == Some(StackEquipped::Quiver) {
            stacks.last().count as int
        } else {
            0
        }
    }
}

/// Index of the first unequipped stack holding `id`.
pub open spec fn first_loose_stack(stacks: Seq<ItemStack>, id: Seq<char>) -> Option<int> {
    first_match(stacks.len() as int, |j: int| stacks[j].id@ == id && stacks[j].equipped is None)
}

impl Inventory {
    pub fn new() -> (inv: Inventory)
        ensures
            inv.stacks@.len() == 0,
    {
        Inventory { stacks: Vec::new() }
    }

    /// Adds `count` of `id`: merges into the first loose (unequipped) stack of that id,
    /// saturating at `u32::MAX`, or appends a new loose stack.
    pub fn add(&mut self, id: &str, count: u32)
        ensures
            match first_loose_stack(old(self).stacks@, id@) {
                Some(i) => 0 <= i < old(self).stacks@.len() && old(self).stacks@[i].id@ == id@ && old(self).stacks@[i].equipped is None && final(self).stacks@.len() == old(self).stacks@.len() && final(self).stacks@[i].id@ == id@ && final(self).stacks@[i].equipped is None && final(self).stacks@[i].count == (if old(self).stacks@[i].count + count > u32::MAX {
                    u32::MAX as int
                } else {
                    old(self).stacks@[i].count + count
                }) && forall|j: int|
                    0 <= j < old(self).stacks@.len() && j != i ==> final(self).stacks@[j] == old(self).stacks@[j],
                None => final(self).stacks@.len() == old(self).stacks@.len() + 1 && final(self).stacks@.last().id@ == id@ && final(self).stacks@.last().count == count && final(self).stacks@.last().equipped is None && forall|j: int|
                    0 <= j < old(self).stacks@.len() ==> final(self).stacks@[j] == old(self).stacks@[j],
            },
            (match first_loose_stack(old(self).stacks@, id@) {
                Some(i) => old(self).stacks@[i].count + count <= u32::MAX,
                None => true,
            }) ==> item_total(final(self).stacks@, id@) == item_total(old(self).stacks@, id@) + count,
            forall|other: Seq<char>|
                other != id@ ==> #[trigger] item_total(final(self).stacks@, other) == item_total(old(self).stacks@, other),
    {
        let ghost p = |j: int| old(self).stacks@[j].id@ == id@ && old(self).stacks@[j].equipped is None;
        let mut i: usize = 0;
        while i < self.stacks.len()
            invariant
                i <= self.stacks@.len(),
                self.stacks@ == old(self).stacks@,
                p == (|j: int| old(self).stacks@[j].id@ == id@ && old(self).stacks@[j].equipped is None),
                forall|j: int| 0 <= j < i ==> !#[trigger] p(j),
            decreases self.stacks@.len() - i,
        {
            if self.stacks[i].equipped.is_none() && str_eq(self.stacks[i].id.as_str(), id) {
                proof { lemma_first_match_is(self.stacks@.len() as int, p, i as int); }
                let mut s = self.stacks[i].clone();
                s.count = s.count.saturating_add(count);
                let ghost before = self.stacks@;
                self.stacks.set(i, s);
                proof {
                    assert forall|other: Seq<char>| #![trigger item_total(self.stacks@, other)]
                        true implies item_total(self.stacks@, other) == item_total(before, other) - (if before[i as int].id@ == other {
                            before[i as int].count as int
                        } else {
                            0
                        }) + (if s.id@ == other { s.count as int } else { 0 }) by {
                        lemma_item_total_update(before, i as int, s, other);
                    }
                }
                return;
            }
            i = i + 1;
        }
        proof { lemma_first_match_none(self.stacks@.len() as int, p); }
        let ghost before = self.stacks@;
        let fresh = ItemStack::new(id, count);
        self.stacks.push(fresh);
        proof {
            assert forall|other: Seq<char>| #![trigger item_total(self.stacks@, other)]
                true implies item_total(self.stacks@, other) == item_total(before, other) + (if fresh.id@ == other {
                    fresh.count as int
                } else {
                    0
                }) by {
                assert(self.stacks@.drop_last() =~= before);
            }
        }
    }

    /// Total count of quiver stacks of `id`, saturated at `u32::MAX`.
    pub fn quiver_count(&self, id: &str) -> (n: u32)
        ensures
            n == (if quiver_total(self.stacks@, id@) > u32::MAX {
                u32::MAX as int
            } else {
                quiver_total(self.stacks@, id@)
            }),
    {
        let mut total: u64 = 0;
        let mut i: usize = 0;
        while i < self.stacks.len()
            invariant
                i <= self.stacks@.len(),
                total == (if quiver_total(self.stacks@.take(i as int), id@) > u32::MAX {
                    u32::MAX as int
                } else {
                    quiver_total(self.stacks@.take(i as int), id@)
                }),
            decreases self.stacks@.len() - i,
        {
            assert(self.stacks@.take(i + 1).drop_last() == self.stacks@.take(i as int));
            proof { lemma_quiver_total_nonneg(self.stacks@.take(i as int), id@); }
            if matches!(self.stacks[i].equipped, Some(StackEquipped::Quiver)) && str_eq(
                self.stacks[i].id.as_str(),
                id,
            ) {
                total = total + self.stacks[i].count as u64;
                if total > u32::MAX as u64 {
                    total = u32::MAX as u64;
                }
            }
            i = i + 1;
        }
        assert(self.stacks@.take(self.stacks@.len() as int) == self.stacks@);
        total as u32
    }
}

pub proof fn lemma_quiver_total_nonneg(stacks: Seq<ItemStack>, id: Seq<char>)
    ensures
        quiver_total(stacks, id) >= 0,
    decreases stacks.len(),
{
    if stacks.len() > 0 {
        lemma_quiver_total_nonneg(stacks.drop_last(), id);
    }
}

/// Replacing stack `i` changes a total by the difference of the two stacks' shares.
pub proof fn lemma_item_total_update(s: Seq<ItemStack>, i: int, x: ItemStack, id: Seq<char>)
    requires
        0 <= i < s.len(),
    ensures
        item_total(s.update(i, x), id) == item_total(s, id) - (if s[i].id@ == id { s[i].count as int } else { 0 }) + (
        if x.id@ == id {
            x.count as int
        } else {
            0
        }),
    decreases s.len(),
{
    if i == s.len() - 1 {
        assert(s.update(i, x).drop_last() =~= s.drop_last());
    } else {
        lemma_item_total_update(s.drop_last(), i, x, id);
        assert(s.update(i, x).drop_last() =~= s.drop_last().update(i, x));
    }
}

} // verus!
