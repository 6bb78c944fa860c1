//! Narrative and entity content types, the [`ContentPack`] container and its validation.

use vstd::prelude::*;

use crate::color::Color;
use crate::entity::ActorStats;
use crate::item::{ItemCatalog, ItemDef};
use crate::narrative::{NarrativeApplyError, NarrativeState};
use crate::search::{first_match, lemma_first_match, lemma_first_match_is, lemma_first_match_none};
use crate::text::str_eq;

verus! {

#[derive(Clone, Copy, Debug)]
pub struct NpcId(pub &'static str);

#[derive(Clone, Copy, Debug)]
pub struct QuestId(pub &'static str);

#[derive(Clone, Copy, Debug, PartialEq, Eq, Structural)]
pub enum DemoQuestPhase {
    NotStarted,
    TalkedToGuide,
    /// Player received the cellar key (inventory or dialogue `GiveItem`).
    HasCellarKey,
    /// Turned in key to the guide (fetch demo).
    ReturnedKey,
    Done,
}

impl Default for DemoQuestPhase {
    fn default() -> (p: DemoQuestPhase)
        ensures
            p == DemoQuestPhase::NotStarted,
    {
        DemoQuestPhase::NotStarted
    }
}

#[derive(Clone, Copy, Debug, PartialEq, Eq, Structural)]
pub struct QuestProgress {
    pub demo: DemoQuestPhase,
}

/// High-level state for a quest row in the player journal (separate from numeric stages).
#[derive(Clone, Copy, Debug, PartialEq, Eq, Structural)]
pub enum QuestJournalStatus {
    InProgress,
    Failed,
    Completed,
}

/// Static quest metadata used by content definitions and validation.
#[derive(Clone, Copy, Debug)]
pub struct QuestDef {
    pub id: &'static str,
    pub title: &'static str,
}

/// Gating for a [`DialogueChoice`]; all must hold before its effects run.
#[derive(Clone, Copy, Debug)]
pub enum Condition {
    HasItem(&'static str),
    ItemCountAtLeast { id: &'static str, count: u32 },
    QuestStageAtLeast { quest: &'static str, min: u32 },
    QuestStatusIs { quest: &'static str, status: QuestJournalStatus },
}

/// Narrative / inventory mutations applied after [`Condition`] checks pass.
#[derive(Clone, Copy, Debug)]
pub enum Effect {
    GiveItem(&'static str),
    TakeItem(&'static str),
    SetDemoQuest(DemoQuestPhase),
    SetQuestStage { quest: &'static str, stage: u32 },
    AddQuestStage { quest: &'static str, delta: u32 },
    Log(&'static str),
    /// Append a line to the journal for `quest`, creating the row with `title_if_new` if needed.
    JournalAppend { quest: &'static str, title_if_new: Option<&'static str>, text: &'static str },
    JournalSetStatus { quest: &'static str, status: QuestJournalStatus },
}

#[derive(Clone, Copy, Debug, PartialEq, Eq, Structural)]
pub enum DialogueAction {
    StartTrainingSpar,
}

#[derive(Clone, Copy, Debug, PartialEq, Eq, Structural)]
pub enum Disposition {
    Friendly,
    Neutral,
    Hostile,
}

impl Default for Disposition {
    fn default() -> (d: Disposition)
        ensures
            d == Disposition::Neutral,
    {
        Disposition::Neutral
    }
}

#[derive(Clone, Copy, Debug, PartialEq, Eq, Structural)]
pub enum Relation {
    Allied,
    Friendly,
    Neutral,
    Hostile,
}

#[derive(Clone, Copy, Debug, PartialEq, Eq, Structural)]
pub struct Rgb24 {
    pub r: u8,
    pub g: u8,
    pub b: u8,
}

impl Rgb24 {
    pub fn new(r: u8, g: u8, b: u8) -> (c: Rgb24)
        ensures
            c == (Rgb24 { r, g, b }),
    {
        Rgb24 { r, g, b }
    }

    pub fn to_render_color(self) -> (c: Color)
        ensures
            c == (Color { r: self.r, g: self.g, b: self.b }),
    {
        Color::rgb(self.r, self.g, self.b)
    }
}

#[derive(Clone, Copy, Debug, PartialEq, Eq, Structural)]
pub struct PatrolStopDef {
    pub dx: i16,
    pub dy: i16,
    pub wait_ticks: u16,
}

#[derive(Clone, Debug)]
pub enum NpcRoutineDef {
    Idle,
    Roam { radius: u16, wait_ticks: u16 },
    Patrol { stops: Vec<PatrolStopDef> },
}

#[derive(Clone, Copy, Debug, PartialEq, Eq, Structural)]
pub enum HostileTriggerDef {
    PlayerWithinChebyshev { range: u16 },
}

/// The rule that makes a hostile NPC start an encounter with the player.
pub type EncounterTriggerDef = HostileTriggerDef;

/// One entry of an NPC's priority reaction list.
#[derive(Clone, Debug)]
pub enum ReactionDef {
    /// Run from the nearest non-allied actor within `range` until twice that far away.
    FleeFromThreat { range: u16 },
    /// During an encounter turn: attack an adjacent fighter or close in.
    FightNearestInTurn,
    /// Walk to where the last hit came from.
    InvestigateLastHit,
    /// Idle / roam / patrol.
    Routine(NpcRoutineDef),
    /// Ask allies for help (no ally system yet: passes).
    CallForHelp { range: u16 },
    Pass,
}

#[derive(Clone, Debug)]
pub struct NpcBehaviorDef {
    /// Exploration routine used by the simple exploration stepper.
    pub routine: NpcRoutineDef,
    /// Aggro rule for hostile actors (starts an encounter).
    pub hostile_trigger: Option<HostileTriggerDef>,
    /// Priority-ordered reactions evaluated by the behavior layer.
    pub reactions: Vec<ReactionDef>,
}

impl NpcBehaviorDef {
    pub fn idle() -> (b: NpcBehaviorDef)
        ensures
            b.routine is Idle,
            b.hostile_trigger is None,
            b.reactions@.len() == 0,
    {
        NpcBehaviorDef { routine: NpcRoutineDef::Idle, hostile_trigger: None, reactions: Vec::new() }
    }
}

#[derive(Clone, Debug)]
pub struct DialogueChoice {
    pub label: &'static str,
    /// Target node index; `nodes.len()` closes the dialogue.
    pub next: usize,
    pub action: Option<DialogueAction>,
    pub requires: Vec<Condition>,
    pub effects: Vec<Effect>,
}

#[derive(Clone, Debug)]
pub struct DialogueNode {
    pub id: &'static str,
    pub text: &'static str,
    pub effects: Vec<Effect>,
    /// When `choices` is empty, proceed to this node on continue.
    pub auto_next: Option<usize>,
    pub choices: Vec<DialogueChoice>,
}

#[derive(Clone, Debug)]
pub struct DialogueTree {
    pub id: &'static str,
    pub nodes: Vec<DialogueNode>,
}

impl DialogueTree {
    pub open spec fn spec_node_index(&self, node_id: Seq<char>) -> Option<int> {
        first_match(self.nodes@.len() as int, |j: int| self.nodes@[j].id@ == node_id)
    }

    /// Index of the first node whose id is `node_id`.
    pub fn node_index(&self, node_id: &str) -> (r: Option<usize>)
        ensures
            r matches Some(i) ==> self.spec_node_index(node_id@) == Some(i as int),
            r is None ==> self.spec_node_index(node_id@) is None,
    {
        let ghost p = |j: int| self.nodes@[j].id@ == node_id@;
        let mut i: usize = 0;
        while i < self.nodes.len()
            invariant
                i <= self.nodes@.len(),
                p == (|j: int| self.nodes@[j].id@ == node_id@),
                forall|j: int| 0 <= j < i ==> !#[trigger] p(j),
            decreases self.nodes@.len() - i,
        {
            if str_eq(self.nodes[i].id, node_id) {
                proof { lemma_first_match_is(self.nodes@.len() as int, p, i as int); }
                return Some(i);
            }
            i = i + 1;
        }
        proof { lemma_first_match_none(self.nodes@.len() as int, p); }
        None
    }
}

/// Game-specific behaviour that a content pack plugs into the runtime. Every
/// method has a default that leaves the narrative untouched.
pub trait ContentRuntimeHooks {
    /// Text shown for a dialogue node.
    fn resolve_dialogue_text(&self, node: &DialogueNode, narrative: &NarrativeState) -> (s: String)
        default_ensures
            s@ == node.text@,
    {
        node.text.to_owned()
    }

    /// Node index at which a dialogue opens.
    fn dialogue_start_node(
        &self,
        dialogue_id: &str,
        tree: &DialogueTree,
        narrative: &NarrativeState,
    ) -> (i: usize)
        default_ensures
            i == 0,
    {
        0
    }

    /// Extra quest lines for the HUD.
    fn hud_quest_status_lines(&self, narrative: &NarrativeState) -> (lines: Vec<String>)
        default_ensures
            lines@.len() == 0,
    {
        Vec::new()
    }

    /// Node id that a training spar ends on, given the final hit points.
    fn training_spar_epilogue_node(&self, player_hp: u16, trainer_hp: u16) -> (id: &'static str)
        default_ensures
            id@ == "post_spar_even"@,
    {
        let id = "post_spar_even";
        proof { reveal_strlit("post_spar_even"); }
        id
    }

    /// Called after the player picks up an item.
    fn on_item_picked(
        &self,
        item_id: &str,
        narrative: &mut NarrativeState,
        log: &mut Vec<String>,
    ) -> (r: Result<(), NarrativeApplyError>)
        default_ensures
            r is Ok,
            *final(narrative) == *old(narrative),
            final(log)@ == old(log)@,
    {
        Ok(())
    }

    /// Called when the player enters a named region.
    fn on_region_enter(
        &self,
        region_id: &str,
        narrative: &mut NarrativeState,
        log: &mut Vec<String>,
    ) -> (r: Result<(), NarrativeApplyError>)
        default_ensures
            r is Ok,
            *final(narrative) == *old(narrative),
            final(log)@ == old(log)@,
    {
        Ok(())
    }
}

/// Hooks that keep every default.
#[derive(Clone, Copy, Debug)]
pub struct NoopContentRuntimeHooks;

impl ContentRuntimeHooks for NoopContentRuntimeHooks {}

/// Static definition for an entity type that may appear in level spawns.
#[derive(Clone, Debug)]
pub struct EntityBlueprint {
    /// Stable id written to spawns and resolved at load time.
    pub kind: &'static str,
    pub display_name: &'static str,
    pub description: &'static str,
    pub default_glyph: char,
    pub default_fg: Rgb24,
    pub default_label: &'static str,
    /// Actors participate in exploration/combat simulation and can block movement.
    pub is_actor: bool,
    pub behavior: NpcBehaviorDef,
    /// When set, must name a dialogue of the pack.
    pub dialogue_id: Option<&'static str>,
    /// When set, the spawn carries this world pickup (`ItemDef.id`).
    pub world_item: Option<&'static str>,
    pub is_container: bool,
    pub faction_id: &'static str,
    /// Default relation toward the player.
    pub disposition_to_player: Disposition,
    pub base_max_hp: u16,
    pub base_strength: u16,
    pub base_agility: u16,
    pub base_speed: u16,
}

/// All narrative and entity content of a game.
#[derive(Clone, Debug)]
pub struct ContentPack {
    /// Dialogue trees keyed by dialogue id.
    pub dialogues: Vec<(&'static str, DialogueTree)>,
    pub default_dialogue: DialogueTree,
    pub quest_defs: Vec<QuestDef>,
    pub entity_blueprints: Vec<EntityBlueprint>,
    pub item_defs: &'static [ItemDef],
}

impl ContentPack {
    pub open spec fn spec_blueprint_index(&self, kind: Seq<char>) -> Option<int> {
        first_match(self.entity_blueprints@.len() as int, |j: int| self.entity_blueprints@[j].kind@ == kind)
    }

    pub open spec fn spec_blueprint(&self, kind: Seq<char>) -> Option<EntityBlueprint> {
        match self.spec_blueprint_index(kind) {
            Some(j) => Some(self.entity_blueprints@[j]),
            None => None,
        }
    }

    pub open spec fn spec_dialogue_index(&self, id: Seq<char>) -> Option<int> {
        first_match(self.dialogues@.len() as int, |j: int| self.dialogues@[j].0@ == id)
    }

    pub open spec fn spec_item_known(&self, id: Seq<char>) -> bool {
        exists|j: int| 0 <= j < self.item_defs@.len() && self.item_defs@[j].id@ == id
    }

    pub open spec fn spec_quest_known(&self, id: Seq<char>) -> bool {
        exists|j: int| 0 <= j < self.quest_defs@.len() && self.quest_defs@[j].id@ == id
    }

    /// The first blueprint whose kind is `kind`.
    pub fn blueprint(&self, kind: &str) -> (r: Option<&EntityBlueprint>)
        ensures
            r matches Some(b) ==> self.spec_blueprint(kind@) == Some(*b),
            r is None ==> self.spec_blueprint(kind@) is None,
    {
        let ghost p = |j: int| self.entity_blueprints@[j].kind@ == kind@;
        let mut i: usize = 0;
        while i < self.entity_blueprints.len()
            invariant
                i <= self.entity_blueprints@.len(),
                p == (|j: int| self.entity_blueprints@[j].kind@ == kind@),
                forall|j: int| 0 <= j < i ==> !#[trigger] p(j),
            decreases self.entity_blueprints@.len() - i,
        {
            if str_eq(self.entity_blueprints[i].kind, kind) {
                proof { lemma_first_match_is(self.entity_blueprints@.len() as int, p, i as int); }
                return Some(&self.entity_blueprints[i]);
            }
            i = i + 1;
        }
        proof { lemma_first_match_none(self.entity_blueprints@.len() as int, p); }
        None
    }

    /// The dialogue tree registered under `id`.
    pub fn dialogue(&self, id: &str) -> (r: Option<&DialogueTree>)
        ensures
            r matches Some(t) ==> self.spec_dialogue_index(id@) matches Some(j) && *t == self.dialogues@[j].1,
            r is None ==> self.spec_dialogue_index(id@) is None,
    {
        let ghost p = |j: int| self.dialogues@[j].0@ == id@;
        let mut i: usize = 0;
        while i < self.dialogues.len()
            invariant
                i <= self.dialogues@.len(),
                p == (|j: int| self.dialogues@[j].0@ == id@),
                forall|j: int| 0 <= j < i ==> !#[trigger] p(j),
            decreases self.dialogues@.len() - i,
        {
            if str_eq(self.dialogues[i].0, id) {
                proof { lemma_first_match_is(self.dialogues@.len() as int, p, i as int); }
                return Some(&self.dialogues[i].1);
            }
            i = i + 1;
        }
        proof { lemma_first_match_none(self.dialogues@.len() as int, p); }
        None
    }

    pub fn item_catalog(&self) -> (c: ItemCatalog)
        ensures
            c.defs@ == self.item_defs@,
    {
        ItemCatalog::new(self.item_defs)
    }

    pub fn item_def(&self, id: &str) -> (r: Option<&'static ItemDef>)
        ensures
            r matches Some(d) ==> crate::item::first_def_index(self.item_defs@, id@) matches Some(i)
                && *d == self.item_defs@[i],
            r is None <==> crate::item::first_def_index(self.item_defs@, id@) is None,
    {
        self.item_catalog().get(id)
    }

    /// Full-health combat stats of blueprint `kind`.
    pub fn blueprint_stats(&self, kind: &str) -> (r: Option<ActorStats>)
        ensures
            r == (match self.spec_blueprint(kind@) {
                Some(bp) => Some(
                    ActorStats {
                        hp: bp.base_max_hp,
                        max_hp: bp.base_max_hp,
                        strength: bp.base_strength,
                        agility: bp.base_agility,
                        speed: bp.base_speed,
                    },
                ),
                None => None,
            }),
    {
        match self.blueprint(kind) {
            Some(bp) => Some(
                ActorStats::from_full(
                    bp.base_max_hp,
                    bp.base_max_hp,
                    bp.base_strength,
                    bp.base_agility,
                    bp.base_speed,
                ),
            ),
            None => None,
        }
    }

    pub(crate) fn item_id_known(&self, id: &str) -> (b: bool)
        ensures
            b == self.spec_item_known(id@),
    {
        let r = self.item_catalog().get(id);
        proof {
            let p = |j: int| self.item_defs@[j].id@ == id@;
            lemma_first_match(self.item_defs@.len() as int, p);
            if let Some(i) = first_match(self.item_defs@.len() as int, p) {
                assert(p(i));
            } else {
                assert forall|j: int| 0 <= j < self.item_defs@.len() implies self.item_defs@[j].id@ != id@ by {
                    assert(!p(j));
                }
            }
        }
        r.is_some()
    }

    pub(crate) fn quest_id_known(&self, id: &str) -> (b: bool)
        ensures
            b == self.spec_quest_known(id@),
    {
        let mut i: usize = 0;
        while i < self.quest_defs.len()
            invariant
                i <= self.quest_defs@.len(),
                forall|j: int| 0 <= j < i ==> self.quest_defs@[j].id@ != id@,
            decreases self.quest_defs@.len() - i,
        {
            if str_eq(self.quest_defs[i].id, id) {
                return true;
            }
            i = i + 1;
        }
        false
    }
}

} // verus!
