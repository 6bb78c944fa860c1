//! Player narrative state: inventory, quest phases and stages, journal, and the
//! evaluation of dialogue conditions against it.

use vstd::prelude::*;

use crate::content::{Condition, DemoQuestPhase, QuestJournalStatus, QuestProgress};
use crate::item::{quiver_total, EquipSlot, Inventory, ItemStack, StackEquipped};
use crate::search::{first_match, lemma_first_match_is, lemma_first_match_none};
use crate::text::str_eq;

verus! {

/// Numeric progress of one quest.
#[derive(Clone, Debug)]
pub struct QuestStage {
    pub quest: String,
    pub stage: u32,
}

/// One quest row in the journal.
#[derive(Clone, Debug)]
pub struct JournalQuest {
    pub quest: String,
    pub title: String,
    pub status: QuestJournalStatus,
    pub lines: Vec<String>,
}

/// Why a narrative change could not be applied.
#[derive(Clone, Debug)]
pub struct NarrativeApplyError {
    pub reason: String,
}

/// Items stored in a container entity.
#[derive(Clone, Debug)]
pub struct ContainerInventory {
    pub container: u32,
    pub inventory: Inventory,
}

#[derive(Clone, Debug)]
pub struct NarrativeState {
    pub inventory: Inventory,
    pub quests: QuestProgress,
    pub quest_stages: Vec<QuestStage>,
    pub quest_journal: Vec<JournalQuest>,
    pub container_inventories: Vec<ContainerInventory>,
}

/// Total count over all stacks of `id` (equipped or not).
pub open spec fn item_total(stacks: Seq<ItemStack>, id: Seq<char>) -> int
    decreases stacks.len(),
{
    if stacks.len() == 0 {
        0
    } else {
        item_total(stacks.drop_last(), id) + if stacks.last().id@ == id {
            stacks.last().count as int
        } else {
            0
        }
    }
}

pub proof fn lemma_item_total_nonneg(stacks: Seq<ItemStack>, id: Seq<char>)
    ensures
        item_total(stacks, id) >= 0,
    decreases stacks.len(),
{
    if stacks.len() > 0 {
        lemma_item_total_nonneg(stacks.drop_last(), id);
    }
}

/// `v` saturated at `u32::MAX`.
pub open spec fn sat_u32(v: int) -> int {
    if v > u32::MAX { u32::MAX as int } else { v }
}

impl NarrativeState {
    pub open spec fn spec_stage_index(&self, quest: Seq<char>) -> Option<int> {
        first_match(self.quest_stages@.len() as int, |j: int| self.quest_stages@[j].quest@ == quest)
    }

    /// Current stage of `quest` (0 when it has none recorded).
    pub open spec fn spec_quest_stage(&self, quest: Seq<char>) -> u32 {
        match self.spec_stage_index(quest) {
            Some(j) => self.quest_stages@[j].stage,
            None => 0,
        }
    }

    pub open spec fn spec_journal_index(&self, quest: Seq<char>) -> Option<int> {
        first_match(self.quest_journal@.len() as int, |j: int| self.quest_journal@[j].quest@ == quest)
    }

    /// Journal status of `quest`, when it has a journal row.
    pub open spec fn spec_quest_status(&self, quest: Seq<char>) -> Option<QuestJournalStatus> {
        match self.spec_journal_index(quest) {
            Some(j) => Some(self.quest_journal@[j].status),
            None => None,
        }
    }

    pub open spec fn spec_condition_met(&self, c: Condition) -> bool {
        match c {
            Condition::HasItem(id) => item_total(self.inventory.stacks@, id@) >= 1,
            Condition::ItemCountAtLeast { id, count } => item_total(self.inventory.stacks@, id@)
                >= count,
            Condition::QuestStageAtLeast { quest, min } => self.spec_quest_stage(quest@) >= min,
            Condition::QuestStatusIs { quest, status } => self.spec_quest_status(quest@) == Some(
                status,
            ),
        }
    }

    /// Every condition of `conds` holds.
    pub open spec fn spec_requires_met(&self, conds: Seq<Condition>) -> bool {
        forall|i: int| 0 <= i < conds.len() ==> #[trigger] self.spec_condition_met(conds[i])
    }

    pub fn new() -> (n: NarrativeState)
        ensures
            n.inventory.stacks@.len() == 0,
            n.quests.demo == DemoQuestPhase::NotStarted,
            n.quest_stages@.len() == 0,
            n.quest_journal@.len() == 0,
            n.container_inventories@.len() == 0,
    {
        NarrativeState {
            inventory: Inventory::new(),
            quests: QuestProgress { demo: DemoQuestPhase::NotStarted },
            quest_stages: Vec::new(),
            quest_journal: Vec::new(),
            container_inventories: Vec::new(),
        }
    }

    /// Total count of `id` in the inventory, saturated at `u32::MAX`.
    pub fn item_count(&self, id: &str) -> (n: u32)
        ensures
            n == sat_u32(item_total(self.inventory.stacks@, id@)),
    {
        let stacks = &self.inventory.stacks;
        let mut total: u64 = 0;
        let mut i: usize = 0;
        while i < stacks.len()
            invariant
                i <= stacks@.len(),
                stacks@ == self.inventory.stacks@,
                total == sat_u32(item_total(stacks@.take(i as int), id@)),
            decreases stacks@.len() - i,
        {
            assert(stacks@.take(i + 1).drop_last() == stacks@.take(i as int));
            proof { lemma_item_total_nonneg(stacks@.take(i as int), id@); }
            if str_eq(stacks[i].id.as_str(), id) {
                total = total + stacks[i].count as u64;
                if total > u32::MAX as u64 {
                    total = u32::MAX as u64;
                }
            }
            i = i + 1;
        }
        assert(stacks@.take(stacks@.len() as int) == stacks@);
        total as u32
    }

    /// Index of the first stack held in the weapon hand.
    pub open spec fn spec_main_hand_index(&self) -> Option<int> {
        first_match(
            self.inventory.stacks@.len() as int,
            |j: int| self.inventory.stacks@[j].equipped == Some(StackEquipped::Wear(EquipSlot::Weapon)),
        )
    }

    /// Item id of the first stack held in the weapon hand.
    pub fn main_hand_item_id(&self) -> (r: Option<&str>)
        ensures
            r matches Some(id) ==> self.spec_main_hand_index() matches Some(j) && id@ == self.inventory.stacks@[j].id@,
            r is None <==> self.spec_main_hand_index() is None,
    {
        let ghost p = |j: int| self.inventory.stacks@[j].equipped == Some(StackEquipped::Wear(EquipSlot::Weapon));
        let mut i: usize = 0;
        while i < self.inventory.stacks.len()
            invariant
                i <= self.inventory.stacks@.len(),
                p == (|j: int| self.inventory.stacks@[j].equipped == Some(StackEquipped::Wear(EquipSlot::Weapon))),
                forall|j: int| 0 <= j < i ==> !#[trigger] p(j),
            decreases self.inventory.stacks@.len() - i,
        {
            let held = match self.inventory.stacks[i].equipped {
                Some(StackEquipped::Wear(EquipSlot::Weapon)) => true,
                _ => false,
            };
            if held {
                proof { lemma_first_match_is(self.inventory.stacks@.len() as int, p, i as int); }
                return Some(self.inventory.stacks[i].id.as_str());
            }
            i = i + 1;
        }
        proof { lemma_first_match_none(self.inventory.stacks@.len() as int, p); }
        None
    }

    /// Arrows (or other ammunition `id`) currently in the quiver.
    pub fn quiver_count_for_ranged(&self, id: &str) -> (n: u32)
        ensures
            n == sat_u32(quiver_total(self.inventory.stacks@, id@)),
    {
        self.inventory.quiver_count(id)
    }

    pub fn quest_stage(&self, quest: &str) -> (s: u32)
        ensures
            s == self.spec_quest_stage(quest@),
    {
        let ghost p = |j: int| self.quest_stages@[j].quest@ == quest@;
        let mut i: usize = 0;
        while i < self.quest_stages.len()
            invariant
                i <= self.quest_stages@.len(),
                p == (|j: int| self.quest_stages@[j].quest@ == quest@),
                forall|j: int| 0 <= j < i ==> !#[trigger] p(j),
            decreases self.quest_stages@.len() - i,
        {
            if str_eq(self.quest_stages[i].quest.as_str(), quest) {
                proof { lemma_first_match_is(self.quest_stages@.len() as int, p, i as int); }
                return self.quest_stages[i].stage;
            }
            i = i + 1;
        }
        proof { lemma_first_match_none(self.quest_stages@.len() as int, p); }
        0
    }

    pub fn quest_status(&self, quest: &str) -> (s: Option<QuestJournalStatus>)
        ensures
            s == self.spec_quest_status(quest@),
    {
        let ghost p = |j: int| self.quest_journal@[j].quest@ == quest@;
        let mut i: usize = 0;
        while i < self.quest_journal.len()
            invariant
                i <= self.quest_journal@.len(),
                p == (|j: int| self.quest_journal@[j].quest@ == quest@),
                forall|j: int| 0 <= j < i ==> !#[trigger] p(j),
            decreases self.quest_journal@.len() - i,
        {
            if str_eq(self.quest_journal[i].quest.as_str(), quest) {
                proof { lemma_first_match_is(self.quest_journal@.len() as int, p, i as int); }
                return Some(self.quest_journal[i].status);
            }
            i = i + 1;
        }
        proof { lemma_first_match_none(self.quest_journal@.len() as int, p); }
        None
    }

    pub fn condition_met(&self, c: &Condition) -> (b: bool)
        ensures
            b == self.spec_condition_met(*c),
    {
        match *c {
            Condition::HasItem(id) => self.item_count(id) >= 1,
            Condition::ItemCountAtLeast { id, count } => self.item_count(id) >= count,
            Condition::QuestStageAtLeast { quest, min } => self.quest_stage(quest) >= min,
            Condition::QuestStatusIs { quest, status } => match self.quest_status(quest) {
                Some(s) => s == status,
                None => false,
            },
        }
    }

    /// Whether every condition in `conds` holds.
    pub fn requires_met(&self, conds: &Vec<Condition>) -> (b: bool)
        ensures
            b == self.spec_requires_met(conds@),
    {
        let mut i: usize = 0;
        while i < conds.len()
            invariant
                i <= conds@.len(),
                forall|j: int| 0 <= j < i ==> #[trigger] self.spec_condition_met(conds@[j]),
            decreases conds@.len() - i,
        {
            if !self.condition_met(&conds[i]) {
                return false;
            }
            i = i + 1;
        }
        true
    }

    /// Sets the journal status of `quest`, creating its row (titled with the quest id)
    /// when it has none.
    pub fn journal_set_status(&mut self, quest: &str, status: QuestJournalStatus)
        ensures
            final(self).spec_quest_status(quest@) == Some(status),
            final(self).inventory == old(self).inventory,
            final(self).quests == old(self).quests,
            final(self).quest_stages == old(self).quest_stages,
            final(self).container_inventories == old(self).container_inventories,
            forall|q: Seq<char>| q != quest@ ==> #[trigger] final(self).spec_quest_status(q)
                == old(self).spec_quest_status(q),
            crate::narrative_effects::status_written(old(self), final(self).quest_journal@, quest@, status),
    {
        let ghost p = |j: int| old(self).quest_journal@[j].quest@ == quest@;
        let mut i: usize = 0;
        while i < self.quest_journal.len()
            invariant
                i <= self.quest_journal@.len(),
                self.quest_journal@ == old(self).quest_journal@,
                *self == *old(self),
                p == (|j: int| old(self).quest_journal@[j].quest@ == quest@),
                forall|j: int| 0 <= j < i ==> !#[trigger] p(j),
            decreases self.quest_journal@.len() - i,
        {
            if str_eq(self.quest_journal[i].quest.as_str(), quest) {
                proof { lemma_first_match_is(self.quest_journal@.len() as int, p, i as int); }
                self.quest_journal[i].status = status;
                proof {
                    let ghost pn = |j: int| self.quest_journal@[j].quest@ == quest@;
                    assert forall|j: int| 0 <= j < i implies !#[trigger] pn(j) by {
                        assert(!p(j));
                    }
                    lemma_first_match_is(self.quest_journal@.len() as int, pn, i as int);
                    assert forall|q: Seq<char>| q != quest@ implies #[trigger] self.spec_quest_status(q)
                        == old(self).spec_quest_status(q) by {
                        let po = |j: int| old(self).quest_journal@[j].quest@ == q;
                        let pf = |j: int| self.quest_journal@[j].quest@ == q;
                        assert forall|j: int| 0 <= j < self.quest_journal@.len() implies #[trigger] po(j) == pf(j) by {
                            assert(self.quest_journal@[j].quest == old(self).quest_journal@[j].quest);
                        }
                        crate::search::lemma_first_match_ext(self.quest_journal@.len() as int, po, pf);
                        if let Some(k) = first_match(self.quest_journal@.len() as int, pf) {
                            crate::search::lemma_first_match(self.quest_journal@.len() as int, pf);
                            if k == i as int {
                                assert(pn(k));
                                assert(false);
                            }
                        }
                    }
                }
                return;
            }
            i = i + 1;
        }
        proof { lemma_first_match_none(self.quest_journal@.len() as int, p); }
        self.quest_journal.push(
            JournalQuest {
                quest: String::from_str(quest),
                title: String::from_str(quest),
                status,
                lines: Vec::new(),
            },
        );
        proof {
            let n = old(self).quest_journal@.len() as int;
            let pn = |j: int| self.quest_journal@[j].quest@ == quest@;
            assert forall|j: int| 0 <= j < n implies !#[trigger] pn(j) by {
                assert(!p(j));
            }
            lemma_first_match_is(n + 1, pn, n);
            assert forall|q: Seq<char>| q != quest@ implies #[trigger] self.spec_quest_status(q)
                == old(self).spec_quest_status(q) by {
                let po = |j: int| old(self).quest_journal@[j].quest@ == q;
                let pf = |j: int| self.quest_journal@[j].quest@ == q;
                assert forall|j: int| 0 <= j < n implies #[trigger] po(j) == pf(j) by {}
                assert(self.quest_journal@[n].quest@ == quest@);
                assert(!pf(n));
                crate::search::lemma_first_match_extend(n, po, pf);
                crate::search::lemma_first_match(n, po);
                if let Some(k) = first_match(n, po) {
                    assert(self.quest_journal@[k] == old(self).quest_journal@[k]);
                }
                assert(self.spec_journal_index(q) == old(self).spec_journal_index(q));
            }
        }
    }
}

impl Default for NarrativeState {
    fn default() -> (n: NarrativeState)
        ensures
            n.inventory.stacks@.len() == 0,
            n.quests.demo == DemoQuestPhase::NotStarted,
            n.quest_stages@.len() == 0,
            n.quest_journal@.len() == 0,
            n.container_inventories@.len() == 0,
    {
        NarrativeState::new()
    }
}

} // verus!
