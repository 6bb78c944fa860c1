//! Applying dialogue effects to the narrative state: items given and taken, quest phase,
//! quest stages, journal rows and log lines.

use vstd::prelude::*;

use crate::content::{Effect, QuestJournalStatus, QuestProgress};
use crate::item::{first_loose_stack, ItemStack};
use crate::narrative::{sat_u32, JournalQuest, NarrativeApplyError, NarrativeState, QuestStage};
use crate::search::{first_match, lemma_first_match_is, lemma_first_match_none};
use crate::game::state::{lemma_lines_push, lines};
use crate::text::str_eq;

verus! {

/// Stages `s1` are those of `n0` with `quest` at `stage`: its row updated, or a new row
/// appended when it had none.
pub open spec fn stage_written(n0: &NarrativeState, s1: Seq<QuestStage>, quest: Seq<char>, stage: u32) -> bool {
    let s0 = n0.quest_stages@;
    match n0.spec_stage_index(quest) {
        Some(j) => {
            &&& s1.len() == s0.len()
            &&& s1[j].quest@ == quest
            &&& s1[j].stage == stage
            &&& forall|k: int| 0 <= k < s1.len() && k != j ==> s1[k] == s0[k]
        },
        None => {
            &&& s1.len() == s0.len() + 1
            &&& s1.last().quest@ == quest
            &&& s1.last().stage == stage
            &&& forall|k: int| 0 <= k < s0.len() ==> s1[k] == s0[k]
        },
    }
}

/// Stacks `s1` are `s0` with one `id` taken from its first loose stack (the stack goes when
/// it held one); unchanged when there is none.
pub open spec fn stacks_taken(s0: Seq<ItemStack>, s1: Seq<ItemStack>, id: Seq<char>) -> bool {
    match first_loose_stack(s0, id) {
        Some(i) => if s0[i].count > 1 {
            s1 == s0.update(i, ItemStack { count: (s0[i].count - 1) as u32, ..s0[i] })
        } else {
            s1 == s0.remove(i)
        },
        None => s1 == s0,
    }
}

/// Journal `j1` is that of `n0` with `text` appended to the row of `quest`; without a row,
/// a new one in progress is added, titled `title` (the quest id when absent).
pub open spec fn journal_appended(
    n0: &NarrativeState,
    j1: Seq<JournalQuest>,
    quest: Seq<char>,
    title: Option<&'static str>,
    text: Seq<char>,
) -> bool {
    let j0 = n0.quest_journal@;
    match n0.spec_journal_index(quest) {
        Some(j) => {
            &&& j1.len() == j0.len()
            &&& j1[j].quest == j0[j].quest
            &&& j1[j].title == j0[j].title
            &&& j1[j].status == j0[j].status
            &&& lines(j1[j].lines@) == lines(j0[j].lines@).push(text)
            &&& forall|k: int| 0 <= k < j1.len() && k != j ==> j1[k] == j0[k]
        },
        None => {
            &&& j1.len() == j0.len() + 1
            &&& j1.last().quest@ == quest
            &&& j1.last().title@ == (match title {
                Some(t) => t@,
                None => quest,
            })
            &&& j1.last().status == QuestJournalStatus::InProgress
            &&& lines(j1.last().lines@) == seq![text]
            &&& forall|k: int| 0 <= k < j0.len() ==> j1[k] == j0[k]
        },
    }
}

/// Journal `j1` is that of `n0` with the status of `quest` set; without a row, a new one
/// titled with the quest id and holding no lines is added.
pub open spec fn status_written(n0: &NarrativeState, j1: Seq<JournalQuest>, quest: Seq<char>, status: QuestJournalStatus) -> bool {
    let j0 = n0.quest_journal@;
    match n0.spec_journal_index(quest) {
        Some(j) => j1 == j0.update(j, JournalQuest { status, ..j0[j] }),
        None => {
            &&& j1.len() == j0.len() + 1
            &&& j1.last().quest@ == quest
            &&& j1.last().title@ == quest
            &&& j1.last().status == status
            &&& j1.last().lines@.len() == 0
            &&& forall|k: int| 0 <= k < j0.len() ==> j1[k] == j0[k]
        },
    }
}

/// Why taking `id` failed.
pub open spec fn take_error(id: Seq<char>) -> Seq<char> {
    "no "@ + id + " to take"@
}

/// `n1` and log lines `l1` follow `n0` and `l0` once effect `e` ran; `err` is the failure
/// (only taking an item the inventory does not hold loosely fails, changing nothing).
pub open spec fn effect_applied(
    n0: &NarrativeState,
    l0: Seq<Seq<char>>,
    e: Effect,
    n1: &NarrativeState,
    l1: Seq<Seq<char>>,
    err: Option<Seq<char>>,
) -> bool {
    match e {
        Effect::GiveItem(id) => {
            &&& err is None
            &&& l1 == l0
            &&& *n1 == (NarrativeState { inventory: n1.inventory, ..*n0 })
            &&& crate::game::transfer::stacks_added(n0.inventory.stacks@, n1.inventory.stacks@, id@, 1)
        },
        Effect::TakeItem(id) => if first_loose_stack(n0.inventory.stacks@, id@) is Some {
            &&& err is None
            &&& l1 == l0
            &&& *n1 == (NarrativeState { inventory: n1.inventory, ..*n0 })
            &&& stacks_taken(n0.inventory.stacks@, n1.inventory.stacks@, id@)
        } else {
            &&& err == Some(take_error(id@))
            &&& l1 == l0
            &&& *n1 == *n0
        },
        Effect::SetDemoQuest(p) => err is None && l1 == l0 && *n1 == (NarrativeState {
            quests: QuestProgress { demo: p },
            ..*n0
        }),
        Effect::SetQuestStage { quest, stage } => {
            &&& err is None
            &&& l1 == l0
            &&& *n1 == (NarrativeState { quest_stages: n1.quest_stages, ..*n0 })
            &&& stage_written(n0, n1.quest_stages@, quest@, stage)
        },
        Effect::AddQuestStage { quest, delta } => {
            &&& err is None
            &&& l1 == l0
            &&& *n1 == (NarrativeState { quest_stages: n1.quest_stages, ..*n0 })
            &&& stage_written(n0, n1.quest_stages@, quest@, sat_u32(n0.spec_quest_stage(quest@) + delta) as u32)
        },
        Effect::Log(t) => err is None && *n1 == *n0 && l1 == l0.push(t@),
        Effect::JournalAppend { quest, title_if_new, text } => {
            &&& err is None
            &&& l1 == l0
            &&& *n1 == (NarrativeState { quest_journal: n1.quest_journal, ..*n0 })
            &&& journal_appended(n0, n1.quest_journal@, quest@, title_if_new, text@)
        },
        Effect::JournalSetStatus { quest, status } => {
            &&& err is None
            &&& l1 == l0
            &&& *n1 == (NarrativeState { quest_journal: n1.quest_journal, ..*n0 })
            &&& status_written(n0, n1.quest_journal@, quest@, status)
        },
    }
}

/// `n1` and log lines `l1` follow `n0` and `l0` once `effs` ran in order, stopping at the
/// first failure `err`.
pub open spec fn effects_applied(
    n0: NarrativeState,
    l0: Seq<Seq<char>>,
    effs: Seq<Effect>,
    n1: NarrativeState,
    l1: Seq<Seq<char>>,
    err: Option<Seq<char>>,
) -> bool
    decreases effs.len(),
{
    if effs.len() == 0 {
        err is None && n1 == n0 && l1 == l0
    } else {
        ||| err is Some && effects_applied(n0, l0, effs.drop_last(), n1, l1, err)
        ||| exists|nm: NarrativeState, lm: Seq<Seq<char>>|
            effects_applied(n0, l0, effs.drop_last(), nm, lm, None) && #[trigger] effect_applied(
                &nm,
                lm,
                effs.last(),
                &n1,
                l1,
                err,
            )
    }
}

impl NarrativeState {
    /// Sets the stage of `quest` (see [`stage_written`]).
    pub fn set_quest_stage(&mut self, quest: &str, stage: u32)
        ensures
            *final(self) == (NarrativeState { quest_stages: final(self).quest_stages, ..*old(self) }),
            stage_written(old(self), final(self).quest_stages@, quest@, stage),
    {
        let ghost p = |j: int| old(self).quest_stages@[j].quest@ == quest@;
        let mut i: usize = 0;
        while i < self.quest_stages.len()
            invariant
                i <= self.quest_stages@.len(),
                *self == *old(self),
                p == (|j: int| old(self).quest_stages@[j].quest@ == quest@),
                forall|j: int| 0 <= j < i ==> !#[trigger] p(j),
            decreases self.quest_stages@.len() - i,
        {
            if str_eq(self.quest_stages[i].quest.as_str(), quest) {
                proof { lemma_first_match_is(self.quest_stages@.len() as int, p, i as int); }
                self.quest_stages[i].stage = stage;
                return;
            }
            i = i + 1;
        }
        proof { lemma_first_match_none(self.quest_stages@.len() as int, p); }
        self.quest_stages.push(QuestStage { quest: String::from_str(quest), stage });
    }

    /// Takes one `id` from the first loose stack of it (see [`stacks_taken`]); false when
    /// there is none.
    pub fn take_one(&mut self, id: &str) -> (ok: bool)
        ensures
            ok == first_loose_stack(old(self).inventory.stacks@, id@) is Some,
            !ok ==> *final(self) == *old(self),
            *final(self) == (NarrativeState { inventory: final(self).inventory, ..*old(self) }),
            stacks_taken(old(self).inventory.stacks@, final(self).inventory.stacks@, id@),
    {
        let ghost p = |j: int| old(self).inventory.stacks@[j].id@ == id@ && old(self).inventory.stacks@[j].equipped is None;
        let mut i: usize = 0;
        while i < self.inventory.stacks.len()
            invariant
                i <= self.inventory.stacks@.len(),
                *self == *old(self),
                p == (|j: int| old(self).inventory.stacks@[j].id@ == id@ && old(self).inventory.stacks@[j].equipped is None),
                forall|j: int| 0 <= j < i ==> !#[trigger] p(j),
            decreases self.inventory.stacks@.len() - i,
        {
            if self.inventory.stacks[i].equipped.is_none() && str_eq(self.inventory.stacks[i].id.as_str(), id) {
                proof { lemma_first_match_is(self.inventory.stacks@.len() as int, p, i as int); }
                if self.inventory.stacks[i].count > 1 {
                    let mut s = self.inventory.stacks[i].clone();
                    s.count = s.count - 1;
                    self.inventory.stacks.set(i, s);
                } else {
                    self.inventory.stacks.remove(i);
                }
                return true;
            }
            i = i + 1;
        }
        proof { lemma_first_match_none(self.inventory.stacks@.len() as int, p); }
        false
    }

    /// Appends `text` to the journal row of `quest` (see [`journal_appended`]).
    pub fn journal_append(&mut self, quest: &str, title_if_new: Option<&'static str>, text: &str)
        ensures
            *final(self) == (NarrativeState { quest_journal: final(self).quest_journal, ..*old(self) }),
            journal_appended(old(self), final(self).quest_journal@, quest@, title_if_new, text@),
    {
        let ghost p = |j: int| old(self).quest_journal@[j].quest@ == quest@;
        let mut i: usize = 0;
        while i < self.quest_journal.len()
            invariant
                i <= self.quest_journal@.len(),
                *self == *old(self),
                p == (|j: int| old(self).quest_journal@[j].quest@ == quest@),
                forall|j: int| 0 <= j < i ==> !#[trigger] p(j),
            decreases self.quest_journal@.len() - i,
        {
            if str_eq(self.quest_journal[i].quest.as_str(), quest) {
                proof { lemma_first_match_is(self.quest_journal@.len() as int, p, i as int); }
                let ghost l0 = self.quest_journal@[i as int].lines@;
                let line = String::from_str(text);
                self.quest_journal[i].lines.push(line);
                proof { lemma_lines_push(l0, line); }
                return;
            }
            i = i + 1;
        }
        proof { lemma_first_match_none(self.quest_journal@.len() as int, p); }
        let title = match title_if_new {
            Some(t) => String::from_str(t),
            None => String::from_str(quest),
        };
        let mut rows: Vec<String> = Vec::new();
        let line = String::from_str(text);
        rows.push(line);
        proof {
            lemma_lines_push(Seq::empty(), line);
            assert(rows@ =~= Seq::<String>::empty().push(line));
            assert(lines(Seq::<String>::empty()) =~= Seq::<Seq<char>>::empty());
            assert(lines(rows@) =~= seq![text@]);
        }
        self.quest_journal.push(JournalQuest { quest: String::from_str(quest), title, status: QuestJournalStatus::InProgress, lines: rows });
    }
}

proof fn lemma_applied_step(
    n0: NarrativeState,
    l0: Seq<Seq<char>>,
    effs: Seq<Effect>,
    nm: NarrativeState,
    lm: Seq<Seq<char>>,
    n1: NarrativeState,
    l1: Seq<Seq<char>>,
    err: Option<Seq<char>>,
)
    requires
        effs.len() > 0,
        effects_applied(n0, l0, effs.drop_last(), nm, lm, None),
        effect_applied(&nm, lm, effs.last(), &n1, l1, err),
    ensures
        effects_applied(n0, l0, effs, n1, l1, err),
{
    assert(effects_applied(n0, l0, effs.drop_last(), nm, lm, None) && effect_applied(&nm, lm, effs.last(), &n1, l1, err));
}

proof fn lemma_failed_prefix(
    n0: NarrativeState,
    l0: Seq<Seq<char>>,
    effs: Seq<Effect>,
    k: int,
    n1: NarrativeState,
    l1: Seq<Seq<char>>,
    msg: Seq<char>,
)
    requires
        0 < k <= effs.len(),
        effects_applied(n0, l0, effs.take(k), n1, l1, Some(msg)),
    ensures
        effects_applied(n0, l0, effs, n1, l1, Some(msg)),
    decreases effs.len() - k,
{
    if k < effs.len() {
        assert(effs.take(k + 1).drop_last() =~= effs.take(k));
        assert(effects_applied(n0, l0, effs.take(k + 1), n1, l1, Some(msg)));
        lemma_failed_prefix(n0, l0, effs, k + 1, n1, l1, msg);
    } else {
        assert(effs.take(k) =~= effs);
    }
}

impl NarrativeState {
    /// Runs effect `e`, logging into `log` (see [`effect_applied`]).
    pub fn apply_effect(&mut self, log: &mut Vec<String>, e: Effect) -> (r: Result<(), NarrativeApplyError>)
        ensures
            effect_applied(
                old(self),
                lines(old(log)@),
                e,
                final(self),
                lines(final(log)@),
                match r {
                    Ok(_) => None,
                    Err(x) => Some(x.reason@),
                },
            ),
    {
        match e {
            Effect::GiveItem(id) => {
                self.inventory.add(id, 1);
                Ok(())
            },
            Effect::TakeItem(id) => {
                if self.take_one(id) {
                    Ok(())
                } else {
                    Err(NarrativeApplyError { reason: String::from_str("no ").concat(id).concat(" to take") })
                }
            },
            Effect::SetDemoQuest(p) => {
                self.quests = QuestProgress { demo: p };
                Ok(())
            },
            Effect::SetQuestStage { quest, stage } => {
                self.set_quest_stage(quest, stage);
                Ok(())
            },
            Effect::AddQuestStage { quest, delta } => {
                let cur = self.quest_stage(quest);
                let next: u32 = if cur as u64 + delta as u64 > u32::MAX as u64 { u32::MAX } else { cur + delta };
                self.set_quest_stage(quest, next);
                Ok(())
            },
            Effect::Log(t) => {
                let line = String::from_str(t);
                proof { lemma_lines_push(log@, line); }
                log.push(line);
                Ok(())
            },
            Effect::JournalAppend { quest, title_if_new, text } => {
                self.journal_append(quest, title_if_new, text);
                Ok(())
            },
            Effect::JournalSetStatus { quest, status } => {
                self.journal_set_status(quest, status);
                Ok(())
            },
        }
    }

    /// Runs `effects` in order, logging into `log`, and stops at the first that fails (see
    /// [`effects_applied`]); what ran before it stays.
    pub fn apply_effects(&mut self, log: &mut Vec<String>, effects: &Vec<Effect>) -> (r: Result<(), NarrativeApplyError>)
        ensures
            effects_applied(
                *old(self),
                lines(old(log)@),
                effects@,
                *final(self),
                lines(final(log)@),
                match r {
                    Ok(_) => None,
                    Err(x) => Some(x.reason@),
                },
            ),
    {
        let mut i: usize = 0;
        proof {
            assert(effects@.take(0) =~= Seq::<Effect>::empty());
        }
        while i < effects.len()
            invariant
                i <= effects@.len(),
                effects_applied(*old(self), lines(old(log)@), effects@.take(i as int), *self, lines(log@), None),
            decreases effects@.len() - i,
        {
            let ghost (n0, l0) = (*self, lines(log@));
            let r = self.apply_effect(log, effects[i]);
            let ghost err = match &r {
                Ok(_) => None,
                Err(x) => Some(x.reason@),
            };
            proof {
                let t = effects@.take(i + 1);
                assert(t.drop_last() =~= effects@.take(i as int));
                assert(t.last() == effects@[i as int]);
                assert(effects_applied(*old(self), lines(old(log)@), t.drop_last(), n0, l0, None));
                assert(effect_applied(&n0, l0, t.last(), &*self, lines(log@), err));
                lemma_applied_step(*old(self), lines(old(log)@), t, n0, l0, *self, lines(log@), err);
                assert(effects_applied(*old(self), lines(old(log)@), t, *self, lines(log@), err));
            }
            match r {
                Ok(()) => {},
                Err(x) => {
                    proof {
                        lemma_failed_prefix(*old(self), lines(old(log)@), effects@, i + 1, *self, lines(log@), x.reason@);
                    }
                    return Err(x);
                },
            }
            i = i + 1;
        }
        proof {
            assert(effects@.take(effects@.len() as int) =~= effects@);
        }
        Ok(())
    }
}

} // verus!
