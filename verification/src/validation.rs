//! Consistency rules of a [`ContentPack`]: unique ids, dialogue graphs that stay inside
//! their trees, and references to items, quests and dialogues that exist.

use vstd::prelude::*;

use crate::content::{Condition, ContentPack, DialogueChoice, DialogueNode, DialogueTree, Effect, EntityBlueprint};
use crate::search::{first_match, first_msg, lemma_first_match_is, lemma_first_match_none, or_else};
use crate::text::{decimal, spec_decimal, str_eq};

verus! {

impl ContentPack {
    /// The effect refers only to known items and quests.
    pub open spec fn effect_ok(&self, e: Effect) -> bool {
        match e {
            Effect::GiveItem(id) => self.spec_item_known(id@),
            Effect::TakeItem(id) => self.spec_item_known(id@),
            Effect::SetDemoQuest(_) => true,
            Effect::Log(_) => true,
            Effect::SetQuestStage { quest, .. } => self.spec_quest_known(quest@),
            Effect::AddQuestStage { quest, .. } => self.spec_quest_known(quest@),
            Effect::JournalAppend { quest, .. } => self.spec_quest_known(quest@),
            Effect::JournalSetStatus { quest, .. } => self.spec_quest_known(quest@),
        }
    }

    /// The condition refers only to known items and quests.
    pub open spec fn condition_ok(&self, c: Condition) -> bool {
        match c {
            Condition::HasItem(id) => self.spec_item_known(id@),
            Condition::ItemCountAtLeast { id, .. } => self.spec_item_known(id@),
            Condition::QuestStageAtLeast { quest, .. } => self.spec_quest_known(quest@),
            Condition::QuestStatusIs { quest, .. } => self.spec_quest_known(quest@),
        }
    }

    /// Node shape rules: either choices or a continue target, targets within the tree
    /// (`nodes.len()` closes the dialogue), and known effects.
    pub open spec fn node_ok(&self, node: DialogueNode, exit: int) -> bool {
        &&& node.choices@.len() == 0 ==> node.auto_next is Some
        &&& node.choices@.len() > 0 ==> node.auto_next is None
        &&& node.auto_next matches Some(n) ==> n <= exit
        &&& forall|e: int| 0 <= e < node.effects@.len() ==> self.effect_ok(#[trigger] node.effects@[e])
        &&& forall|c: int| 0 <= c < node.choices@.len() ==> #[trigger] node.choices@[c].next <= exit
    }

    /// Node ids are unique and every node keeps the shape rules.
    pub open spec fn tree_ok(&self, tree: DialogueTree) -> bool {
        &&& forall|a: int, b: int|
            0 <= a < b < tree.nodes@.len() ==> #[trigger] tree.nodes@[a].id@ != #[trigger] tree.nodes@[b].id@
        &&& forall|i: int| 0 <= i < tree.nodes@.len() ==> self.node_ok(#[trigger] tree.nodes@[i], tree.nodes@.len() as int)
    }

    /// The choice's conditions and effects refer only to known items and quests.
    pub open spec fn choice_refs_ok(&self, c: DialogueChoice) -> bool {
        &&& forall|j: int| 0 <= j < c.requires@.len() ==> self.condition_ok(#[trigger] c.requires@[j])
        &&& forall|j: int| 0 <= j < c.effects@.len() ==> self.effect_ok(#[trigger] c.effects@[j])
    }

    pub open spec fn node_choices_ok(&self, node: DialogueNode) -> bool {
        forall|c: int| 0 <= c < node.choices@.len() ==> self.choice_refs_ok(#[trigger] node.choices@[c])
    }

    pub open spec fn tree_choices_ok(&self, tree: DialogueTree) -> bool {
        forall|i: int| 0 <= i < tree.nodes@.len() ==> self.node_choices_ok(#[trigger] tree.nodes@[i])
    }

    /// The blueprint's dialogue and world item exist.
    pub open spec fn blueprint_ok(&self, b: EntityBlueprint) -> bool {
        &&& b.dialogue_id matches Some(d) ==> self.spec_dialogue_index(d@) is Some
        &&& b.world_item matches Some(w) ==> self.spec_item_known(w@)
    }

    /// Every rule of the pack holds.
    pub open spec fn spec_valid(&self) -> bool {
        &&& forall|a: int, b: int|
            0 <= a < b < self.quest_defs@.len() ==> #[trigger] self.quest_defs@[a].id@ != #[trigger] self.quest_defs@[b].id@
        &&& forall|a: int, b: int|
            0 <= a < b < self.dialogues@.len() ==> #[trigger] self.dialogues@[a].0@ != #[trigger] self.dialogues@[b].0@
        &&& forall|i: int| 0 <= i < self.dialogues@.len() ==> self.tree_ok(#[trigger] self.dialogues@[i].1)
        &&& forall|a: int, b: int|
            0 <= a < b < self.entity_blueprints@.len() ==> #[trigger] self.entity_blueprints@[a].kind@
                != #[trigger] self.entity_blueprints@[b].kind@
        &&& forall|i: int| 0 <= i < self.entity_blueprints@.len() ==> self.blueprint_ok(#[trigger] self.entity_blueprints@[i])
        &&& forall|a: int, b: int|
            0 <= a < b < self.item_defs@.len() ==> #[trigger] self.item_defs@[a].id@ != #[trigger] self.item_defs@[b].id@
        &&& forall|i: int| 0 <= i < self.dialogues@.len() ==> self.tree_choices_ok(#[trigger] self.dialogues@[i].1)
    }
}

/// `s` in double quotes, as `{:?}` shows a plain id.
pub open spec fn quoted_spec(s: Seq<char>) -> Seq<char> {
    "\""@ + s + "\""@
}

/// Label of node `i` of dialogue `tree`.
pub open spec fn node_label_spec(tree: Seq<char>, i: int) -> Seq<char> {
    "dialogue "@ + tree + " node "@ + spec_decimal(i as nat)
}

/// Label of choice `ci` of node `ni` of dialogue `k`.
pub open spec fn choice_label(k: Seq<char>, ni: int, ci: int) -> Seq<char> {
    "dialogue "@ + k + " node "@ + spec_decimal(ni as nat) + " choice "@ + spec_decimal(ci as nat)
}

impl ContentPack {
    /// What is wrong with effect `e` (listed under `label` and `what`), if anything.
    pub open spec fn effect_error(&self, e: Effect, label: Seq<char>, what: Seq<char>) -> Option<Seq<char>> {
        match e {
            Effect::GiveItem(id) => if self.spec_item_known(id@) { None } else { Some(label + what + " item unknown "@ + quoted_spec(id@)) },
            Effect::TakeItem(id) => if self.spec_item_known(id@) { None } else { Some(label + what + " item unknown "@ + quoted_spec(id@)) },
            Effect::SetDemoQuest(_) => None,
            Effect::Log(_) => None,
            Effect::SetQuestStage { quest, .. } => if self.spec_quest_known(quest@) { None } else { Some(label + what + " quest unknown "@ + quoted_spec(quest@)) },
            Effect::AddQuestStage { quest, .. } => if self.spec_quest_known(quest@) { None } else { Some(label + what + " quest unknown "@ + quoted_spec(quest@)) },
            Effect::JournalAppend { quest, .. } => if self.spec_quest_known(quest@) { None } else { Some(label + what + " quest unknown "@ + quoted_spec(quest@)) },
            Effect::JournalSetStatus { quest, .. } => if self.spec_quest_known(quest@) { None } else { Some(label + what + " quest unknown "@ + quoted_spec(quest@)) },
        }
    }

    pub open spec fn effects_bad(&self, effects: Seq<Effect>) -> spec_fn(int) -> bool {
        |j: int| !self.effect_ok(effects[j])
    }

    /// What is wrong with the first bad effect of `effects`, if any.
    pub open spec fn effects_error(&self, effects: Seq<Effect>, label: Seq<char>, what: Seq<char>) -> Option<Seq<char>> {
        first_msg(effects.len() as int, self.effects_bad(effects), |j: int| self.effect_error(effects[j], label, what)->0)
    }

    /// Node `i` of `tree` has the id of an earlier node.
    pub open spec fn node_dup(&self, tree: DialogueTree, i: int) -> bool {
        exists|a: int| 0 <= a < i && tree.nodes@[a].id@ == tree.nodes@[i].id@
    }

    pub open spec fn next_bad(&self, node: DialogueNode, exit: int) -> spec_fn(int) -> bool {
        |c: int| node.choices@[c].next > exit
    }

    /// The first broken rule of node `i` of `tree`, checked in order: its id, its shape,
    /// its continue target, its effects, its choice targets.
    pub open spec fn node_error(&self, tree: DialogueTree, i: int) -> Option<Seq<char>> {
        let node = tree.nodes@[i];
        let exit = tree.nodes@.len() as int;
        let label = node_label_spec(tree.id@, i);
        if self.node_dup(tree, i) {
            Some("dialogue "@ + tree.id@ + " has duplicate node id "@ + quoted_spec(node.id@))
        } else if node.choices@.len() == 0 && node.auto_next is None {
            Some(label + " has empty choices but no continue_to target"@)
        } else if node.choices@.len() > 0 && node.auto_next is Some {
            Some(label + " mixes choices with continue_to (not allowed)"@)
        } else if node.auto_next is Some && node.auto_next->0 > exit {
            Some(label + " continue_to points to invalid "@ + spec_decimal(node.auto_next->0 as nat))
        } else if self.effects_error(node.effects@, label, " effect"@) is Some {
            self.effects_error(node.effects@, label, " effect"@)
        } else {
            first_msg(
                node.choices@.len() as int,
                self.next_bad(node, exit),
                |c: int| label + " choice points to invalid "@ + spec_decimal(node.choices@[c].next as nat),
            )
        }
    }

    pub open spec fn node_bad(&self, tree: DialogueTree) -> spec_fn(int) -> bool {
        |i: int| self.node_error(tree, i) is Some
    }

    /// The first broken rule of `tree`, node by node.
    pub open spec fn tree_error(&self, tree: DialogueTree) -> Option<Seq<char>> {
        match first_match(tree.nodes@.len() as int, self.node_bad(tree)) {
            Some(i) => self.node_error(tree, i),
            None => None,
        }
    }

    /// What is wrong with condition `c` (listed under `label`), if anything.
    pub open spec fn condition_error(&self, c: Condition, label: Seq<char>) -> Option<Seq<char>> {
        match c {
            Condition::HasItem(id) => if self.spec_item_known(id@) { None } else { Some(label + " HasItem unknown "@ + quoted_spec(id@)) },
            Condition::ItemCountAtLeast { id, .. } => if self.spec_item_known(id@) { None } else { Some(label + " HasItem unknown "@ + quoted_spec(id@)) },
            Condition::QuestStageAtLeast { quest, .. } => if self.spec_quest_known(quest@) { None } else { Some(label + " condition quest unknown "@ + quoted_spec(quest@)) },
            Condition::QuestStatusIs { quest, .. } => if self.spec_quest_known(quest@) { None } else { Some(label + " condition quest unknown "@ + quoted_spec(quest@)) },
        }
    }

    pub open spec fn conds_bad(&self, conds: Seq<Condition>) -> spec_fn(int) -> bool {
        |j: int| !self.condition_ok(conds[j])
    }

    /// The first broken rule of a choice: its conditions, then its effects.
    pub open spec fn choice_error(&self, k: Seq<char>, ni: int, ci: int, c: DialogueChoice) -> Option<Seq<char>> {
        let label = choice_label(k, ni, ci);
        or_else(
            first_msg(c.requires@.len() as int, self.conds_bad(c.requires@), |j: int| self.condition_error(c.requires@[j], label)->0),
            self.effects_error(c.effects@, label, " effect"@),
        )
    }

    pub open spec fn choice_bad(&self, k: Seq<char>, ni: int, node: DialogueNode) -> spec_fn(int) -> bool {
        |ci: int| self.choice_error(k, ni, ci, node.choices@[ci]) is Some
    }

    pub open spec fn node_choices_error(&self, k: Seq<char>, ni: int, node: DialogueNode) -> Option<Seq<char>> {
        match first_match(node.choices@.len() as int, self.choice_bad(k, ni, node)) {
            Some(ci) => self.choice_error(k, ni, ci, node.choices@[ci]),
            None => None,
        }
    }

    pub open spec fn nodes_choices_bad(&self, k: Seq<char>, tree: DialogueTree) -> spec_fn(int) -> bool {
        |ni: int| self.node_choices_error(k, ni, tree.nodes@[ni]) is Some
    }

    /// The first broken rule among the choices of dialogue `tree` (listed as `k`).
    pub open spec fn tree_choices_error(&self, k: Seq<char>, tree: DialogueTree) -> Option<Seq<char>> {
        match first_match(tree.nodes@.len() as int, self.nodes_choices_bad(k, tree)) {
            Some(ni) => self.node_choices_error(k, ni, tree.nodes@[ni]),
            None => None,
        }
    }

    pub open spec fn quest_bad(&self) -> spec_fn(int) -> bool {
        |i: int| exists|a: int| 0 <= a < i && self.quest_defs@[a].id@ == self.quest_defs@[i].id@
    }

    pub open spec fn dialogue_dup(&self, i: int) -> bool {
        exists|a: int| 0 <= a < i && self.dialogues@[a].0@ == self.dialogues@[i].0@
    }

    pub open spec fn dialogue_error(&self, i: int) -> Option<Seq<char>> {
        if self.dialogue_dup(i) {
            Some("duplicate dialogue id: "@ + self.dialogues@[i].0@)
        } else {
            self.tree_error(self.dialogues@[i].1)
        }
    }

    pub open spec fn dialogue_bad(&self) -> spec_fn(int) -> bool {
        |i: int| self.dialogue_error(i) is Some
    }

    pub open spec fn blueprint_error(&self, i: int) -> Option<Seq<char>> {
        let b = self.entity_blueprints@[i];
        if exists|a: int| 0 <= a < i && self.entity_blueprints@[a].kind@ == b.kind@ {
            Some("duplicate entity blueprint kind: "@ + b.kind@)
        } else if b.dialogue_id is Some && self.spec_dialogue_index(b.dialogue_id->0@) is None {
            Some("entity blueprint "@ + quoted_spec(b.kind@) + " dialogue_id "@ + quoted_spec(b.dialogue_id->0@)
                + " missing from dialogues"@)
        } else if b.world_item is Some && !self.spec_item_known(b.world_item->0@) {
            Some("entity blueprint "@ + quoted_spec(b.kind@) + " world_item "@ + quoted_spec(b.world_item->0@)
                + " missing from item_defs"@)
        } else {
            None
        }
    }

    pub open spec fn blueprint_bad(&self) -> spec_fn(int) -> bool {
        |i: int| self.blueprint_error(i) is Some
    }

    pub open spec fn item_bad(&self) -> spec_fn(int) -> bool {
        |i: int| exists|a: int| 0 <= a < i && self.item_defs@[a].id@ == self.item_defs@[i].id@
    }

    pub open spec fn choices_bad(&self) -> spec_fn(int) -> bool {
        |i: int| self.tree_choices_error(self.dialogues@[i].0@, self.dialogues@[i].1) is Some
    }

    pub open spec fn quests_error(&self) -> Option<Seq<char>> {
        first_msg(self.quest_defs@.len() as int, self.quest_bad(), |i: int| "duplicate quest_def id: "@ + self.quest_defs@[i].id@)
    }

    pub open spec fn dialogues_error(&self) -> Option<Seq<char>> {
        match first_match(self.dialogues@.len() as int, self.dialogue_bad()) {
            Some(i) => self.dialogue_error(i),
            None => None,
        }
    }

    pub open spec fn blueprints_error(&self) -> Option<Seq<char>> {
        match first_match(self.entity_blueprints@.len() as int, self.blueprint_bad()) {
            Some(i) => self.blueprint_error(i),
            None => None,
        }
    }

    pub open spec fn items_error(&self) -> Option<Seq<char>> {
        first_msg(self.item_defs@.len() as int, self.item_bad(), |i: int| "duplicate item_def id "@ + self.item_defs@[i].id@)
    }

    pub open spec fn all_choices_error(&self) -> Option<Seq<char>> {
        match first_match(self.dialogues@.len() as int, self.choices_bad()) {
            Some(i) => self.tree_choices_error(self.dialogues@[i].0@, self.dialogues@[i].1),
            None => None,
        }
    }

    /// The message of the first broken rule, checked in order: unique quest ids, the
    /// dialogue trees (unique ids, then each tree's nodes), the blueprints, unique item ids,
    /// then every choice's conditions and effects.
    pub open spec fn spec_first_error(&self) -> Option<Seq<char>> {
        or_else(
            self.quests_error(),
            or_else(self.dialogues_error(), or_else(self.blueprints_error(), or_else(self.items_error(), self.all_choices_error()))),
        )
    }
}

fn owned(s: &str) -> (r: String)
    ensures
        r@ == s@,
{
    String::from_str(s)
}

/// `"text"` as `{:?}` shows a plain id.
fn quoted(s: &str) -> (r: String)
    ensures
        r@ == "\""@ + s@ + "\""@,
{
    owned("\"").concat(s).concat("\"")
}

fn num(n: usize) -> (r: String)
    ensures
        r@ == crate::text::spec_decimal(n as nat),
{
    decimal(n as u64)
}

/// `"dialogue {tree} node {i}"`.
fn node_label(tree: &str, i: usize) -> (r: String)
    ensures
        r@ == "dialogue "@ + tree@ + " node "@ + crate::text::spec_decimal(i as nat),
{
    owned("dialogue ").concat(tree).concat(" node ").concat(num(i).as_str())
}

impl ContentPack {
    fn check_effect(&self, e: &Effect, label: &String, what: &str) -> (r: Result<(), String>)
        ensures
            r is Ok <==> self.effect_ok(*e),
            r is Ok <==> self.effect_error(*e, label@, what@) is None,
            r matches Err(m) ==> self.effect_error(*e, label@, what@) == Some(m@),
    {
        match e {
            Effect::GiveItem(id) | Effect::TakeItem(id) => {
                if !self.item_id_known(id) {
                    return Err(label.clone().concat(what).concat(" item unknown ").concat(quoted(id).as_str()));
                }
                Ok(())
            },
            Effect::SetDemoQuest(_) | Effect::Log(_) => Ok(()),
            Effect::SetQuestStage { quest, .. }
            | Effect::AddQuestStage { quest, .. }
            | Effect::JournalAppend { quest, .. }
            | Effect::JournalSetStatus { quest, .. } => {
                if !self.quest_id_known(quest) {
                    return Err(label.clone().concat(what).concat(" quest unknown ").concat(quoted(quest).as_str()));
                }
                Ok(())
            },
        }
    }

    fn check_effects(&self, effects: &Vec<Effect>, label: &String, what: &str) -> (r: Result<(), String>)
        ensures
            r is Ok <==> forall|e: int| 0 <= e < effects@.len() ==> self.effect_ok(#[trigger] effects@[e]),
            r is Ok <==> self.effects_error(effects@, label@, what@) is None,
            r matches Err(m) ==> self.effects_error(effects@, label@, what@) == Some(m@),
    {
        let mut j: usize = 0;
        while j < effects.len()
            invariant
                j <= effects@.len(),
                forall|e: int| 0 <= e < j ==> self.effect_ok(#[trigger] effects@[e]),
            decreases effects@.len() - j,
        {
            match self.check_effect(&effects[j], label, what) {
                Ok(()) => {},
                Err(m) => {
                    proof {
                        assert forall|e: int| 0 <= e < j implies !#[trigger] self.effects_bad(effects@)(e) by {
                            assert(self.effect_ok(effects@[e]));
                        }
                        lemma_first_match_is(effects@.len() as int, self.effects_bad(effects@), j as int);
                    }
                    return Err(m);
                },
            }
            j = j + 1;
        }
        proof {
            assert forall|e: int| 0 <= e < effects@.len() implies !#[trigger] self.effects_bad(effects@)(e) by {
                assert(self.effect_ok(effects@[e]));
            }
            lemma_first_match_none(effects@.len() as int, self.effects_bad(effects@));
        }
        Ok(())
    }

    fn check_tree(&self, tree: &DialogueTree) -> (r: Result<(), String>)
        ensures
            r is Ok <==> self.tree_ok(*tree),
            r is Ok ==> self.tree_error(*tree) is None,
            r matches Err(m) ==> self.tree_error(*tree) == Some(m@),
    {
        let exit = tree.nodes.len();
        let mut i: usize = 0;
        while i < tree.nodes.len()
            invariant
                i <= tree.nodes@.len(),
                exit == tree.nodes@.len(),
                forall|a: int, b: int| 0 <= a < b < i ==> #[trigger] tree.nodes@[a].id@ != #[trigger] tree.nodes@[b].id@,
                forall|k: int| 0 <= k < i ==> self.node_ok(#[trigger] tree.nodes@[k], exit as int),
                forall|k: int| 0 <= k < i ==> !#[trigger] self.node_bad(*tree)(k),
            decreases tree.nodes@.len() - i,
        {
            let node = &tree.nodes[i];
            let ghost gi = i as int;
            let mut a: usize = 0;
            while a < i
                invariant
                    a <= i < tree.nodes@.len(),
                    *node == tree.nodes@[i as int],
                    gi == i as int,
                    forall|p: int| 0 <= p < a ==> tree.nodes@[p].id@ != node.id@,
                    forall|k: int| 0 <= k < i ==> !#[trigger] self.node_bad(*tree)(k),
                decreases i - a,
            {
                if str_eq(tree.nodes[a].id, node.id) {
                    proof {
                        assert(tree.nodes@[a as int].id@ == tree.nodes@[gi].id@);
                        assert(self.node_dup(*tree, gi));
                        lemma_first_match_is(tree.nodes@.len() as int, self.node_bad(*tree), gi);
                    }
                    return Err(owned("dialogue ").concat(tree.id).concat(" has duplicate node id ").concat(
                        quoted(node.id).as_str(),
                    ));
                }
                a = a + 1;
            }
            assert(!self.node_dup(*tree, gi));
            let label = node_label(tree.id, i);
            if node.choices.len() == 0 {
                if node.auto_next.is_none() {
                    proof { lemma_first_match_is(tree.nodes@.len() as int, self.node_bad(*tree), gi); }
                    return Err(label.concat(" has empty choices but no continue_to target"));
                }
            } else if node.auto_next.is_some() {
                proof { lemma_first_match_is(tree.nodes@.len() as int, self.node_bad(*tree), gi); }
                return Err(label.concat(" mixes choices with continue_to (not allowed)"));
            }
            if let Some(n) = node.auto_next {
                if n > exit {
                    proof { lemma_first_match_is(tree.nodes@.len() as int, self.node_bad(*tree), gi); }
                    return Err(label.concat(" continue_to points to invalid ").concat(num(n).as_str()));
                }
            }
            match self.check_effects(&node.effects, &label, " effect") {
                Ok(()) => {},
                Err(m) => {
                    proof { lemma_first_match_is(tree.nodes@.len() as int, self.node_bad(*tree), gi); }
                    return Err(m);
                },
            }
            let mut c: usize = 0;
            while c < node.choices.len()
                invariant
                    c <= node.choices@.len(),
                    i < tree.nodes@.len(),
                    *node == tree.nodes@[i as int],
                    exit == tree.nodes@.len(),
                    forall|q: int| 0 <= q < c ==> #[trigger] node.choices@[q].next <= exit,
                    gi == i as int,
                    forall|k: int| 0 <= k < i ==> !#[trigger] self.node_bad(*tree)(k),
                    !self.node_dup(*tree, gi),
                    !(node.choices@.len() == 0 && node.auto_next is None),
                    !(node.choices@.len() > 0 && node.auto_next is Some),
                    !(node.auto_next is Some && node.auto_next->0 > exit),
                    label@ == node_label_spec(tree.id@, gi),
                    self.effects_error(node.effects@, label@, " effect"@) is None,
                decreases node.choices@.len() - c,
            {
                if node.choices[c].next > exit {
                    proof {
                        assert forall|q: int| 0 <= q < c implies !#[trigger] self.next_bad(*node, exit as int)(q) by {
                            assert(node.choices@[q].next <= exit);
                        }
                        lemma_first_match_is(node.choices@.len() as int, self.next_bad(*node, exit as int), c as int);
                        lemma_first_match_is(tree.nodes@.len() as int, self.node_bad(*tree), gi);
                    }
                    return Err(label.concat(" choice points to invalid ").concat(num(node.choices[c].next).as_str()));
                }
                c = c + 1;
            }
            proof {
                assert forall|q: int| 0 <= q < node.choices@.len() implies !#[trigger] self.next_bad(*node, exit as int)(q) by {
                    assert(node.choices@[q].next <= exit);
                }
                lemma_first_match_none(node.choices@.len() as int, self.next_bad(*node, exit as int));
                assert(!self.node_bad(*tree)(gi));
            }
            i = i + 1;
        }
        proof { lemma_first_match_none(tree.nodes@.len() as int, self.node_bad(*tree)); }
        Ok(())
    }

    fn check_tree_choices(&self, k: &str, tree: &DialogueTree) -> (r: Result<(), String>)
        ensures
            r is Ok <==> self.tree_choices_ok(*tree),
            r is Ok ==> self.tree_choices_error(k@, *tree) is None,
            r matches Err(m) ==> self.tree_choices_error(k@, *tree) == Some(m@),
    {
        let mut ni: usize = 0;
        while ni < tree.nodes.len()
            invariant
                ni <= tree.nodes@.len(),
                forall|q: int| 0 <= q < ni ==> self.node_choices_ok(#[trigger] tree.nodes@[q]),
                forall|q: int| 0 <= q < ni ==> !#[trigger] self.nodes_choices_bad(k@, *tree)(q),
            decreases tree.nodes@.len() - ni,
        {
            let node = &tree.nodes[ni];
            let ghost gni = ni as int;
            let mut ci: usize = 0;
            while ci < node.choices.len()
                invariant
                    ci <= node.choices@.len(),
                    ni < tree.nodes@.len(),
                    gni == ni as int,
                    *node == tree.nodes@[ni as int],
                    forall|q: int| 0 <= q < ni ==> self.node_choices_ok(#[trigger] tree.nodes@[q]),
                    forall|q: int| 0 <= q < ci ==> self.choice_refs_ok(#[trigger] node.choices@[q]),
                    forall|q: int| 0 <= q < ni ==> !#[trigger] self.nodes_choices_bad(k@, *tree)(q),
                    forall|q: int| 0 <= q < ci ==> !#[trigger] self.choice_bad(k@, gni, *node)(q),
                decreases node.choices@.len() - ci,
            {
                let c = &node.choices[ci];
                let ghost gci = ci as int;
                let label = owned("dialogue ").concat(k).concat(" node ").concat(num(ni).as_str()).concat(
                    " choice ",
                ).concat(num(ci).as_str());
                assert(label@ == choice_label(k@, gni, gci));
                let mut j: usize = 0;
                while j < c.requires.len()
                    invariant
                        j <= c.requires@.len(),
                        ci < node.choices@.len(),
                        *c == node.choices@[ci as int],
                        ni < tree.nodes@.len(),
                        *node == tree.nodes@[ni as int],
                        gni == ni as int,
                        gci == ci as int,
                        label@ == choice_label(k@, gni, gci),
                        forall|q: int| 0 <= q < j ==> self.condition_ok(#[trigger] c.requires@[q]),
                        forall|q: int| 0 <= q < j ==> !#[trigger] self.conds_bad(c.requires@)(q),
                        forall|q: int| 0 <= q < ni ==> !#[trigger] self.nodes_choices_bad(k@, *tree)(q),
                        forall|q: int| 0 <= q < ci ==> !#[trigger] self.choice_bad(k@, gni, *node)(q),
                    decreases c.requires@.len() - j,
                {
                    match &c.requires[j] {
                        Condition::HasItem(id) | Condition::ItemCountAtLeast { id, .. } => {
                            if !self.item_id_known(id) {
                                proof {
                                    lemma_first_match_is(c.requires@.len() as int, self.conds_bad(c.requires@), j as int);
                                    lemma_first_match_is(node.choices@.len() as int, self.choice_bad(k@, gni, *node), gci);
                                    lemma_first_match_is(tree.nodes@.len() as int, self.nodes_choices_bad(k@, *tree), gni);
                                }
                                return Err(label.concat(" HasItem unknown ").concat(quoted(id).as_str()));
                            }
                        },
                        Condition::QuestStageAtLeast { quest, .. } | Condition::QuestStatusIs { quest, .. } => {
                            if !self.quest_id_known(quest) {
                                proof {
                                    lemma_first_match_is(c.requires@.len() as int, self.conds_bad(c.requires@), j as int);
                                    lemma_first_match_is(node.choices@.len() as int, self.choice_bad(k@, gni, *node), gci);
                                    lemma_first_match_is(tree.nodes@.len() as int, self.nodes_choices_bad(k@, *tree), gni);
                                }
                                return Err(label.concat(" condition quest unknown ").concat(quoted(quest).as_str()));
                            }
                        },
                    }
                    assert(!self.conds_bad(c.requires@)(j as int));
                    j = j + 1;
                }
                proof { lemma_first_match_none(c.requires@.len() as int, self.conds_bad(c.requires@)); }
                match self.check_effects(&c.effects, &label, " effect") {
                    Ok(()) => {},
                    Err(m) => {
                        proof {
                            lemma_first_match_is(node.choices@.len() as int, self.choice_bad(k@, gni, *node), gci);
                            lemma_first_match_is(tree.nodes@.len() as int, self.nodes_choices_bad(k@, *tree), gni);
                        }
                        return Err(m);
                    },
                }
                assert(!self.choice_bad(k@, gni, *node)(gci));
                ci = ci + 1;
            }
            proof { lemma_first_match_none(node.choices@.len() as int, self.choice_bad(k@, gni, *node)); }
            assert(!self.nodes_choices_bad(k@, *tree)(gni));
            ni = ni + 1;
        }
        proof { lemma_first_match_none(tree.nodes@.len() as int, self.nodes_choices_bad(k@, *tree)); }
        Ok(())
    }

    /// Checks every rule of the pack; `Ok` exactly when all hold, otherwise the message of
    /// the first broken rule found (see [`ContentPack::spec_first_error`]).
    pub fn validate(&self) -> (r: Result<(), String>)
        ensures
            r is Ok <==> self.spec_valid(),
            r is Ok ==> self.spec_first_error() is None,
            r matches Err(m) ==> self.spec_first_error() == Some(m@),
    {
        let mut i: usize = 0;
        while i < self.quest_defs.len()
            invariant
                i <= self.quest_defs@.len(),
                forall|a: int, b: int|
                    0 <= a < b < i ==> #[trigger] self.quest_defs@[a].id@ != #[trigger] self.quest_defs@[b].id@,
                forall|j: int| 0 <= j < i ==> !#[trigger] self.quest_bad()(j),
            decreases self.quest_defs@.len() - i,
        {
            let ghost gi = i as int;
            let mut a: usize = 0;
            while a < i
                invariant
                    a <= i < self.quest_defs@.len(),
                    gi == i as int,
                    forall|p: int| 0 <= p < a ==> self.quest_defs@[p].id@ != self.quest_defs@[i as int].id@,
                    forall|j: int| 0 <= j < i ==> !#[trigger] self.quest_bad()(j),
                decreases i - a,
            {
                if str_eq(self.quest_defs[a].id, self.quest_defs[i].id) {
                    proof {
                        assert(self.quest_bad()(gi));
                        lemma_first_match_is(self.quest_defs@.len() as int, self.quest_bad(), gi);
                    }
                    return Err(owned("duplicate quest_def id: ").concat(self.quest_defs[i].id));
                }
                a = a + 1;
            }
            assert(!self.quest_bad()(gi));
            i = i + 1;
        }
        proof { lemma_first_match_none(self.quest_defs@.len() as int, self.quest_bad()); }
        let mut i: usize = 0;
        while i < self.dialogues.len()
            invariant
                i <= self.dialogues@.len(),
                forall|a: int, b: int|
                    0 <= a < b < self.quest_defs@.len() ==> #[trigger] self.quest_defs@[a].id@ != #[trigger] self.quest_defs@[b].id@,
                forall|a: int, b: int|
                    0 <= a < b < i ==> #[trigger] self.dialogues@[a].0@ != #[trigger] self.dialogues@[b].0@,
                forall|k: int| 0 <= k < i ==> self.tree_ok(#[trigger] self.dialogues@[k].1),
                self.quests_error() is None,
                forall|j: int| 0 <= j < i ==> !#[trigger] self.dialogue_bad()(j),
            decreases self.dialogues@.len() - i,
        {
            let ghost gi = i as int;
            let mut a: usize = 0;
            while a < i
                invariant
                    a <= i < self.dialogues@.len(),
                    gi == i as int,
                    forall|p: int| 0 <= p < a ==> self.dialogues@[p].0@ != self.dialogues@[i as int].0@,
                    forall|j: int| 0 <= j < i ==> !#[trigger] self.dialogue_bad()(j),
                    self.quests_error() is None,
                decreases i - a,
            {
                if str_eq(self.dialogues[a].0, self.dialogues[i].0) {
                    proof {
                        assert(self.dialogue_dup(gi));
                        lemma_first_match_is(self.dialogues@.len() as int, self.dialogue_bad(), gi);
                    }
                    return Err(owned("duplicate dialogue id: ").concat(self.dialogues[i].0));
                }
                a = a + 1;
            }
            assert(!self.dialogue_dup(gi));
            match self.check_tree(&self.dialogues[i].1) {
                Ok(()) => {},
                Err(m) => {
                    proof { lemma_first_match_is(self.dialogues@.len() as int, self.dialogue_bad(), gi); }
                    return Err(m);
                },
            }
            assert(!self.dialogue_bad()(gi));
            i = i + 1;
        }
        proof { lemma_first_match_none(self.dialogues@.len() as int, self.dialogue_bad()); }
        let mut i: usize = 0;
        while i < self.entity_blueprints.len()
            invariant
                i <= self.entity_blueprints@.len(),
                forall|a: int, b: int|
                    0 <= a < b < self.quest_defs@.len() ==> #[trigger] self.quest_defs@[a].id@ != #[trigger] self.quest_defs@[b].id@,
                forall|a: int, b: int|
                    0 <= a < b < self.dialogues@.len() ==> #[trigger] self.dialogues@[a].0@ != #[trigger] self.dialogues@[b].0@,
                forall|k: int| 0 <= k < self.dialogues@.len() ==> self.tree_ok(#[trigger] self.dialogues@[k].1),
                forall|a: int, b: int|
                    0 <= a < b < i ==> #[trigger] self.entity_blueprints@[a].kind@ != #[trigger] self.entity_blueprints@[b].kind@,
                forall|k: int| 0 <= k < i ==> self.blueprint_ok(#[trigger] self.entity_blueprints@[k]),
                self.quests_error() is None,
                self.dialogues_error() is None,
                forall|j: int| 0 <= j < i ==> !#[trigger] self.blueprint_bad()(j),
            decreases self.entity_blueprints@.len() - i,
        {
            let b = &self.entity_blueprints[i];
            let ghost gi = i as int;
            let mut a: usize = 0;
            while a < i
                invariant
                    a <= i < self.entity_blueprints@.len(),
                    gi == i as int,
                    *b == self.entity_blueprints@[i as int],
                    forall|p: int| 0 <= p < a ==> self.entity_blueprints@[p].kind@ != b.kind@,
                    forall|j: int| 0 <= j < i ==> !#[trigger] self.blueprint_bad()(j),
                    self.quests_error() is None,
                    self.dialogues_error() is None,
                decreases i - a,
            {
                if str_eq(self.entity_blueprints[a].kind, b.kind) {
                    proof {
                        assert(self.entity_blueprints@[a as int].kind@ == self.entity_blueprints@[gi].kind@);
                        lemma_first_match_is(self.entity_blueprints@.len() as int, self.blueprint_bad(), gi);
                    }
                    return Err(owned("duplicate entity blueprint kind: ").concat(b.kind));
                }
                a = a + 1;
            }
            if let Some(did) = b.dialogue_id {
                if self.dialogue(did).is_none() {
                    proof { lemma_first_match_is(self.entity_blueprints@.len() as int, self.blueprint_bad(), gi); }
                    return Err(owned("entity blueprint ").concat(quoted(b.kind).as_str()).concat(" dialogue_id ").concat(
                        quoted(did).as_str(),
                    ).concat(" missing from dialogues"));
                }
            }
            if let Some(wi) = b.world_item {
                if !self.item_id_known(wi) {
                    proof { lemma_first_match_is(self.entity_blueprints@.len() as int, self.blueprint_bad(), gi); }
                    return Err(owned("entity blueprint ").concat(quoted(b.kind).as_str()).concat(" world_item ").concat(
                        quoted(wi).as_str(),
                    ).concat(" missing from item_defs"));
                }
            }
            assert(!self.blueprint_bad()(gi));
            i = i + 1;
        }
        proof { lemma_first_match_none(self.entity_blueprints@.len() as int, self.blueprint_bad()); }
        let mut i: usize = 0;
        while i < self.item_defs.len()
            invariant
                i <= self.item_defs@.len(),
                forall|a: int, b: int|
                    0 <= a < b < i ==> #[trigger] self.item_defs@[a].id@ != #[trigger] self.item_defs@[b].id@,
                self.quests_error() is None,
                self.dialogues_error() is None,
                self.blueprints_error() is None,
                forall|j: int| 0 <= j < i ==> !#[trigger] self.item_bad()(j),
            decreases self.item_defs@.len() - i,
        {
            let ghost gi = i as int;
            let mut a: usize = 0;
            while a < i
                invariant
                    a <= i < self.item_defs@.len(),
                    gi == i as int,
                    forall|p: int| 0 <= p < a ==> self.item_defs@[p].id@ != self.item_defs@[i as int].id@,
                    forall|j: int| 0 <= j < i ==> !#[trigger] self.item_bad()(j),
                    self.quests_error() is None,
                    self.dialogues_error() is None,
                    self.blueprints_error() is None,
                decreases i - a,
            {
                if str_eq(self.item_defs[a].id, self.item_defs[i].id) {
                    proof {
                        assert(self.item_bad()(gi));
                        lemma_first_match_is(self.item_defs@.len() as int, self.item_bad(), gi);
                    }
                    return Err(owned("duplicate item_def id ").concat(self.item_defs[i].id));
                }
                a = a + 1;
            }
            assert(!self.item_bad()(gi));
            i = i + 1;
        }
        proof { lemma_first_match_none(self.item_defs@.len() as int, self.item_bad()); }
        let mut i: usize = 0;
        while i < self.dialogues.len()
            invariant
                i <= self.dialogues@.len(),
                forall|k: int| 0 <= k < i ==> self.tree_choices_ok(#[trigger] self.dialogues@[k].1),
                self.quests_error() is None,
                self.dialogues_error() is None,
                self.blueprints_error() is None,
                self.items_error() is None,
                forall|j: int| 0 <= j < i ==> !#[trigger] self.choices_bad()(j),
            decreases self.dialogues@.len() - i,
        {
            let ghost gi = i as int;
            match self.check_tree_choices(self.dialogues[i].0, &self.dialogues[i].1) {
                Ok(()) => {},
                Err(m) => {
                    proof { lemma_first_match_is(self.dialogues@.len() as int, self.choices_bad(), gi); }
                    return Err(m);
                },
            }
            assert(!self.choices_bad()(gi));
            i = i + 1;
        }
        proof { lemma_first_match_none(self.dialogues@.len() as int, self.choices_bad()); }
        Ok(())
    }
}

} // verus!
