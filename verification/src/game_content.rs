//! This game's dialogues, items, quests and entity blueprints.

use vstd::prelude::*;

use crate::content::{
    Condition, ContentPack, DemoQuestPhase, DialogueAction, DialogueChoice, DialogueNode, DialogueTree,
    Disposition, Effect, EntityBlueprint, HostileTriggerDef, NpcBehaviorDef, NpcRoutineDef, QuestDef,
    QuestJournalStatus, ReactionDef, Rgb24,
};
use crate::item::{EquipSlot, ItemCategory, ItemDef, WeaponDef, WeaponKind};

verus! {

fn choice(label: &'static str, next: usize, conds: Vec<Condition>, effects: Vec<Effect>) -> (c: DialogueChoice)
    ensures
        c.label == label,
        c.next == next,
        c.action is None,
        c.requires@ == conds@,
        c.effects@ == effects@,
{
    DialogueChoice { label, next, action: None, requires: conds, effects }
}

/// `c` is the choice with these fields.
spec fn choice_is(
    c: DialogueChoice,
    label: &'static str,
    next: usize,
    action: Option<DialogueAction>,
    requires: Seq<Condition>,
    effects: Seq<Effect>,
) -> bool {
    &&& c.label == label
    &&& c.next == next
    &&& c.action == action
    &&& c.requires@ == requires
    &&& c.effects@ == effects
}

/// `n` is the node with these fields and `choices` choices.
spec fn node_is(
    n: DialogueNode,
    id: &'static str,
    text: &'static str,
    effects: Seq<Effect>,
    auto_next: Option<usize>,
    choices: int,
) -> bool {
    &&& n.id == id
    &&& n.text == text
    &&& n.effects@ == effects
    &&& n.auto_next == auto_next
    &&& n.choices@.len() == choices
}

/// The guide's dialogue: an offer of the cellar-key task (or its return, once the key is
/// carried), the handing over of the key, a refusal and thanks.
fn guide_tree() -> (t: DialogueTree)
    ensures
        t.id == "guide",
        t.nodes@.len() == 4,
        node_is(t.nodes@[0], "welcome", "Welcome, traveler. Listen, and the cellar key may be yours.", seq![], None, 3),
        choice_is(
            t.nodes@[0].choices@[0],
            "I'll listen.",
            1,
            None,
            seq![],
            seq![
                Effect::SetDemoQuest(DemoQuestPhase::TalkedToGuide),
                Effect::JournalAppend {
                    quest: "cellar_key",
                    title_if_new: Some("The cellar key"),
                    text: "The guide has a task concerning the old cellar.",
                },
            ],
        ),
        choice_is(t.nodes@[0].choices@[1], "Not interested.", 2, None, seq![], seq![]),
        choice_is(
            t.nodes@[0].choices@[2],
            "I brought the cellar key back.",
            3,
            None,
            seq![Condition::HasItem("cellar_key")],
            seq![
                Effect::TakeItem("cellar_key"),
                Effect::SetDemoQuest(DemoQuestPhase::ReturnedKey),
                Effect::JournalSetStatus { quest: "cellar_key", status: QuestJournalStatus::Completed },
            ],
        ),
        node_is(t.nodes@[1], "give_key", "Good. Here is the cellar key.", seq![], None, 1),
        choice_is(
            t.nodes@[1].choices@[0],
            "I'll take it.",
            4,
            None,
            seq![],
            seq![
                Effect::GiveItem("cellar_key"),
                Effect::SetDemoQuest(DemoQuestPhase::HasCellarKey),
                Effect::SetQuestStage { quest: "cellar_key", stage: 1 },
            ],
        ),
        node_is(t.nodes@[2], "decline", "As you wish.", seq![], None, 1),
        choice_is(t.nodes@[2].choices@[0], "Farewell.", 4, None, seq![], seq![]),
        node_is(t.nodes@[3], "thanks", "Thank you. Safe travels.", seq![Effect::Log("The guide thanks you.")], None, 1),
        choice_is(t.nodes@[3].choices@[0], "Farewell.", 4, None, seq![], seq![]),
{
    let welcome = DialogueNode {
        id: "welcome",
        text: "Welcome, traveler. Listen, and the cellar key may be yours.",
        effects: Vec::new(),
        auto_next: None,
        choices: vec![
            choice(
                "I'll listen.",
                1,
                Vec::new(),
                vec![
                    Effect::SetDemoQuest(DemoQuestPhase::TalkedToGuide),
                    Effect::JournalAppend {
                        quest: "cellar_key",
                        title_if_new: Some("The cellar key"),
                        text: "The guide has a task concerning the old cellar.",
                    },
                ],
            ),
            choice("Not interested.", 2, Vec::new(), Vec::new()),
            choice(
                "I brought the cellar key back.",
                3,
                vec![Condition::HasItem("cellar_key")],
                vec![
                    Effect::TakeItem("cellar_key"),
                    Effect::SetDemoQuest(DemoQuestPhase::ReturnedKey),
                    Effect::JournalSetStatus { quest: "cellar_key", status: QuestJournalStatus::Completed },
                ],
            ),
        ],
    };
    let give_key = DialogueNode {
        id: "give_key",
        text: "Good. Here is the cellar key.",
        effects: Vec::new(),
        auto_next: None,
        choices: vec![
            choice(
                "I'll take it.",
                4,
                Vec::new(),
                vec![
                    Effect::GiveItem("cellar_key"),
                    Effect::SetDemoQuest(DemoQuestPhase::HasCellarKey),
                    Effect::SetQuestStage { quest: "cellar_key", stage: 1 },
                ],
            ),
        ],
    };
    let decline = DialogueNode {
        id: "decline",
        text: "As you wish.",
        effects: Vec::new(),
        auto_next: None,
        choices: vec![choice("Farewell.", 4, Vec::new(), Vec::new())],
    };
    let thanks = DialogueNode {
        id: "thanks",
        text: "Thank you. Safe travels.",
        effects: vec![Effect::Log("The guide thanks you.")],
        auto_next: None,
        choices: vec![choice("Farewell.", 4, Vec::new(), Vec::new())],
    };
    assert(welcome.choices@[2].requires@ =~= seq![Condition::HasItem("cellar_key")]);
    assert(thanks.effects@ =~= seq![Effect::Log("The guide thanks you.")]);
    DialogueTree { id: "guide", nodes: vec![welcome, give_key, decline, thanks] }
}

/// The trainer's dialogue: an offer to spar (which starts the training fight) or not, then
/// a goodbye that closes the dialogue on continue.
fn trainer_tree() -> (t: DialogueTree)
    ensures
        t.id == "trainer",
        t.nodes@.len() == 2,
        node_is(t.nodes@[0], "offer", "Care for a sparring round? Nobody gets hurt.", seq![], None, 2),
        choice_is(t.nodes@[0].choices@[0], "Let's spar.", 1, Some(DialogueAction::StartTrainingSpar), seq![], seq![]),
        choice_is(t.nodes@[0].choices@[1], "Not now.", 1, None, seq![], seq![]),
        node_is(t.nodes@[1], "bye", "Come back any time.", seq![], Some(2), 0),
{
    let offer = DialogueNode {
        id: "offer",
        text: "Care for a sparring round? Nobody gets hurt.",
        effects: Vec::new(),
        auto_next: None,
        choices: vec![
            DialogueChoice {
                label: "Let's spar.",
                next: 1,
                action: Some(DialogueAction::StartTrainingSpar),
                requires: Vec::new(),
                effects: Vec::new(),
            },
            choice("Not now.", 1, Vec::new(), Vec::new()),
        ],
    };
    let bye = DialogueNode {
        id: "bye",
        text: "Come back any time.",
        effects: Vec::new(),
        auto_next: Some(2),
        choices: Vec::new(),
    };
    DialogueTree { id: "trainer", nodes: vec![offer, bye] }
}

/// The dialogue of characters without one of their own: a single farewell.
fn default_tree() -> (t: DialogueTree)
    ensures
        t.id == "default",
        t.nodes@.len() == 1,
        node_is(t.nodes@[0], "hello", "They have nothing to say.", seq![], None, 1),
        choice_is(t.nodes@[0].choices@[0], "Farewell.", 1, None, seq![], seq![]),
{
    let hello = DialogueNode {
        id: "hello",
        text: "They have nothing to say.",
        effects: Vec::new(),
        auto_next: None,
        choices: vec![choice("Farewell.", 1, Vec::new(), Vec::new())],
    };
    DialogueTree { id: "default", nodes: vec![hello] }
}

fn behavior(routine: NpcRoutineDef, hostile_trigger: Option<HostileTriggerDef>, reactions: Vec<ReactionDef>) -> (b: NpcBehaviorDef)
    ensures
        b.routine == routine,
        b.hostile_trigger == hostile_trigger,
        b.reactions@ == reactions@,
{
    NpcBehaviorDef { routine, hostile_trigger, reactions }
}

fn actor(
    kind: &'static str,
    display_name: &'static str,
    description: &'static str,
    glyph: char,
    fg: Rgb24,
    behavior: NpcBehaviorDef,
    dialogue_id: Option<&'static str>,
    disposition: Disposition,
    stats: (u16, u16, u16, u16),
) -> (b: EntityBlueprint)
    ensures
        b.kind == kind,
        b.is_actor,
        b.base_speed == stats.3,
        b.dialogue_id == dialogue_id,
        b.world_item is None,
        !b.is_container,
        b.disposition_to_player == disposition,
        b.behavior == behavior,
{
    EntityBlueprint {
        kind,
        display_name,
        description,
        default_glyph: glyph,
        default_fg: fg,
        default_label: display_name,
        is_actor: true,
        behavior,
        dialogue_id,
        world_item: None,
        is_container: false,
        faction_id: kind,
        disposition_to_player: disposition,
        base_max_hp: stats.0,
        base_strength: stats.1,
        base_agility: stats.2,
        base_speed: stats.3,
    }
}

fn thing(
    kind: &'static str,
    display_name: &'static str,
    description: &'static str,
    glyph: char,
    label: &'static str,
    world_item: Option<&'static str>,
    is_container: bool,
) -> (b: EntityBlueprint)
    ensures
        b.kind == kind,
        !b.is_actor,
        b.base_speed == 1,
        b.dialogue_id is None,
        b.world_item == world_item,
        b.is_container == is_container,
        behaves(b, NpcRoutineDef::Idle, None, seq![]),
{
    let behavior = NpcBehaviorDef::idle();
    assert(behavior.reactions@ =~= seq![]);
    EntityBlueprint {
        kind,
        display_name,
        description,
        default_glyph: glyph,
        default_fg: Rgb24::new(180, 160, 120),
        default_label: label,
        is_actor: false,
        behavior,
        dialogue_id: None,
        world_item,
        is_container,
        faction_id: "none",
        disposition_to_player: Disposition::Neutral,
        base_max_hp: 1,
        base_strength: 0,
        base_agility: 0,
        base_speed: 1,
    }
}

/// `b` follows `routine`, turns hostile on `trigger` and tries `reactions` in order.
pub open spec fn behaves(
    b: EntityBlueprint,
    routine: NpcRoutineDef,
    trigger: Option<HostileTriggerDef>,
    reactions: Seq<ReactionDef>,
) -> bool {
    &&& b.behavior.routine == routine
    &&& b.behavior.hostile_trigger == trigger
    &&& b.behavior.reactions@ == reactions
}

/// The content pack of this game (dialogues, quests, blueprints and items); it keeps every
/// content rule.
pub fn content_pack() -> (p: ContentPack)
    ensures
        p.spec_valid(),
        behaves(p.entity_blueprints@[0], NpcRoutineDef::Idle, None, seq![ReactionDef::Routine(NpcRoutineDef::Idle)]),
        behaves(
            p.entity_blueprints@[1],
            NpcRoutineDef::Idle,
            None,
            seq![ReactionDef::FightNearestInTurn, ReactionDef::Routine(NpcRoutineDef::Idle)],
        ),
        behaves(p.entity_blueprints@[2], NpcRoutineDef::Idle, None, seq![ReactionDef::Routine(NpcRoutineDef::Idle)]),
        behaves(
            p.entity_blueprints@[3],
            NpcRoutineDef::Roam { radius: 4, wait_ticks: 30 },
            Some(HostileTriggerDef::PlayerWithinChebyshev { range: 6 }),
            seq![
                ReactionDef::FightNearestInTurn,
                ReactionDef::InvestigateLastHit,
                ReactionDef::Routine(NpcRoutineDef::Roam { radius: 4, wait_ticks: 30 }),
            ],
        ),
        behaves(
            p.entity_blueprints@[4],
            NpcRoutineDef::Roam { radius: 6, wait_ticks: 20 },
            None,
            seq![ReactionDef::FleeFromThreat { range: 5 }, ReactionDef::Routine(NpcRoutineDef::Roam { radius: 6, wait_ticks: 20 })],
        ),
        behaves(p.entity_blueprints@[5], NpcRoutineDef::Idle, None, seq![]),
        behaves(p.entity_blueprints@[6], NpcRoutineDef::Idle, None, seq![]),
        behaves(p.entity_blueprints@[7], NpcRoutineDef::Idle, None, seq![]),
        behaves(p.entity_blueprints@[8], NpcRoutineDef::Idle, None, seq![ReactionDef::Pass]),
        p.entity_blueprints@[0].dialogue_id == Some("guide"),
        p.entity_blueprints@[1].dialogue_id == Some("trainer"),
        p.entity_blueprints@[6].world_item == Some("cellar_key"),
        p.entity_blueprints@[7].is_container,
        p.entity_blueprints@[0].disposition_to_player == Disposition::Friendly,
        p.entity_blueprints@[1].disposition_to_player == Disposition::Friendly,
        p.entity_blueprints@[8].disposition_to_player == Disposition::Neutral,
        p.entity_blueprints@.len() == 9,
        p.entity_blueprints@[0].kind == "guide",
        p.entity_blueprints@[1].kind == "trainer",
        p.entity_blueprints@[2].kind == "healer",
        p.entity_blueprints@[3].kind == "wolf",
        p.entity_blueprints@[4].kind == "deer",
        p.entity_blueprints@[5].kind == "prop",
        p.entity_blueprints@[6].kind == "cellar_key_drop",
        p.entity_blueprints@[7].kind == "wooden_chest",
        p.entity_blueprints@[8].kind == "training_dummy",
        p.entity_blueprints@[3].disposition_to_player == Disposition::Hostile,
        p.entity_blueprints@[4].disposition_to_player == Disposition::Neutral,
        p.entity_blueprints@[2].disposition_to_player == Disposition::Friendly,
        p.item_defs@.len() == 6,
        p.quest_defs@.len() == 1,
        p.dialogues@.len() == 2,
        forall|j: int| 0 <= j < p.entity_blueprints@.len() ==> #[trigger] p.entity_blueprints@[j].base_speed <= crate::combat::MAX_COMBAT_SPEED,
        crate::game::bootstrap::blueprint_speeds_bounded(&p),
{
    let item_defs: &'static [ItemDef] = &[
        ItemDef {
            id: "cellar_key",
            name: "Cellar key",
            description: "Heavy iron; faint cellar mold. Opens the old cellar.",
            glyph: ',',
            category: ItemCategory::Mundane,
            weapon: None,
        },
        ItemDef {
            id: "health_tonic",
            name: "Health tonic",
            description: "Bitter red syrup. Labels promise vigor.",
            glyph: '!',
            category: ItemCategory::Consumable,
            weapon: None,
        },
        ItemDef {
            id: "brass_ring",
            name: "Brass ring",
            description: "Worn smooth. Fits a finger; no enchantment detected yet.",
            glyph: '=',
            category: ItemCategory::Equippable(EquipSlot::Ring),
            weapon: None,
        },
        ItemDef {
            id: "iron_sword",
            name: "Iron sword",
            description: "A plain, well-balanced blade.",
            glyph: '/',
            category: ItemCategory::Equippable(EquipSlot::Weapon),
            weapon: Some(WeaponDef { kind: WeaponKind::Melee, to_hit: 1, damage_bonus: 2, range: 1 }),
        },
        ItemDef {
            id: "hunting_bow",
            name: "Hunting bow",
            description: "Yew and gut string. Needs arrows in the quiver.",
            glyph: ')',
            category: ItemCategory::Equippable(EquipSlot::Weapon),
            weapon: Some(WeaponDef { kind: WeaponKind::Bow, to_hit: 0, damage_bonus: 1, range: 8 }),
        },
        ItemDef {
            id: "arrow",
            name: "Arrow",
            description: "Fletched with goose feathers.",
            glyph: '|',
            category: ItemCategory::Ammo,
            weapon: None,
        },
    ];
    let guide_b = behavior(NpcRoutineDef::Idle, None, vec![ReactionDef::Routine(NpcRoutineDef::Idle)]);
    assert(guide_b.reactions@ =~= seq![ReactionDef::Routine(NpcRoutineDef::Idle)]);
    let healer_b = behavior(NpcRoutineDef::Idle, None, vec![ReactionDef::Routine(NpcRoutineDef::Idle)]);
    assert(healer_b.reactions@ =~= seq![ReactionDef::Routine(NpcRoutineDef::Idle)]);
    let dummy_b = behavior(NpcRoutineDef::Idle, None, vec![ReactionDef::Pass]);
    assert(dummy_b.reactions@ =~= seq![ReactionDef::Pass]);
    let blueprints = vec![
        actor(
            "guide",
            "Guide",
            "Knows about the old cellar.",
            'g',
            Rgb24::new(120, 200, 255),
            guide_b,
            Some("guide"),
            Disposition::Friendly,
            (10, 2, 2, 4),
        ),
        actor(
            "trainer",
            "Trainer",
            "Offers sparring rounds.",
            't',
            Rgb24::new(255, 200, 80),
            behavior(NpcRoutineDef::Idle, None, vec![ReactionDef::FightNearestInTurn, ReactionDef::Routine(NpcRoutineDef::Idle)]),
            Some("trainer"),
            Disposition::Friendly,
            (20, 6, 4, 6),
        ),
        actor(
            "healer",
            "Healer",
            "Tends the wounded.",
            'h',
            Rgb24::new(120, 255, 160),
            healer_b,
            None,
            Disposition::Friendly,
            (8, 2, 2, 4),
        ),
        actor(
            "wolf",
            "Wolf",
            "Hungry and territorial.",
            'w',
            Rgb24::new(170, 170, 170),
            behavior(
                NpcRoutineDef::Roam { radius: 4, wait_ticks: 30 },
                Some(HostileTriggerDef::PlayerWithinChebyshev { range: 6 }),
                vec![
                    ReactionDef::FightNearestInTurn,
                    ReactionDef::InvestigateLastHit,
                    ReactionDef::Routine(NpcRoutineDef::Roam { radius: 4, wait_ticks: 30 }),
                ],
            ),
            None,
            Disposition::Hostile,
            (12, 6, 4, 6),
        ),
        actor(
            "deer",
            "Deer",
            "Skittish; bolts when anyone comes close.",
            'd',
            Rgb24::new(200, 150, 90),
            behavior(
                NpcRoutineDef::Roam { radius: 6, wait_ticks: 20 },
                None,
                vec![
                    ReactionDef::FleeFromThreat { range: 5 },
                    ReactionDef::Routine(NpcRoutineDef::Roam { radius: 6, wait_ticks: 20 }),
                ],
            ),
            None,
            Disposition::Neutral,
            (6, 2, 8, 10),
        ),
        thing("prop", "Prop", "Set dressing.", '*', "Crate", None, false),
        thing("cellar_key_drop", "Cellar key", "World pickup of the cellar key.", ',', "Key", Some("cellar_key"), false),
        thing("wooden_chest", "Wooden chest", "Storage; open it while standing next to it.", 'C', "Chest", None, true),
        actor(
            "training_dummy",
            "Training dummy",
            "Straw and sackcloth.",
            'T',
            Rgb24::new(160, 140, 100),
            dummy_b,
            None,
            Disposition::Neutral,
            (30, 0, 0, 1),
        ),
    ];
    let gt = guide_tree();
    let tt = trainer_tree();
    let ghost g = gt;
    let ghost t = tt;
    let dialogues = vec![("guide", gt), ("trainer", tt)];
    assert(dialogues@[0] == ("guide", g));
    assert(dialogues@[1] == ("trainer", t));
    let p = ContentPack {
        dialogues,
        default_dialogue: default_tree(),
        quest_defs: vec![QuestDef { id: "cellar_key", title: "The cellar key" }],
        entity_blueprints: blueprints,
        item_defs,
    };
    proof {
        reveal_strlit("guide");
        reveal_strlit("trainer");
        reveal_strlit("healer");
        reveal_strlit("wolf");
        reveal_strlit("deer");
        reveal_strlit("prop");
        reveal_strlit("cellar_key_drop");
        reveal_strlit("wooden_chest");
        reveal_strlit("training_dummy");
        reveal_strlit("cellar_key");
        reveal_strlit("health_tonic");
        reveal_strlit("brass_ring");
        reveal_strlit("iron_sword");
        reveal_strlit("hunting_bow");
        reveal_strlit("arrow");
        reveal_strlit("welcome");
        reveal_strlit("give_key");
        reveal_strlit("decline");
        reveal_strlit("thanks");
        reveal_strlit("offer");
        reveal_strlit("bye");
        reveal_strlit("hello");
        assert(p.item_defs@[0].id@ == "cellar_key"@);
        assert(p.spec_item_known("cellar_key"@));
        assert(p.quest_defs@[0].id@ == "cellar_key"@);
        assert(p.spec_quest_known("cellar_key"@));
        assert(p.node_ok(g.nodes@[0], 4));
        assert(p.node_ok(g.nodes@[1], 4));
        assert(p.node_ok(g.nodes@[2], 4));
        assert(p.node_ok(g.nodes@[3], 4));
        assert(g.nodes@[0].id@[0] == 'w' && g.nodes@[1].id@[0] == 'g');
        assert(g.nodes@[0].id@[0] == 'w' && g.nodes@[2].id@[0] == 'd');
        assert(g.nodes@[0].id@[0] == 'w' && g.nodes@[3].id@[0] == 't');
        assert(g.nodes@[1].id@[0] == 'g' && g.nodes@[2].id@[0] == 'd');
        assert(g.nodes@[1].id@[0] == 'g' && g.nodes@[3].id@[0] == 't');
        assert(g.nodes@[2].id@[0] == 'd' && g.nodes@[3].id@[0] == 't');
        assert(p.tree_ok(g));
        assert(p.node_ok(t.nodes@[0], 2));
        assert(p.node_ok(t.nodes@[1], 2));
        assert(t.nodes@[0].id@[0] == 'o' && t.nodes@[1].id@[0] == 'b');
        assert(p.tree_ok(t));
        assert(p.tree_choices_ok(g)) by {
            assert(p.node_choices_ok(g.nodes@[0]));
            assert(p.node_choices_ok(g.nodes@[1]));
            assert(p.node_choices_ok(g.nodes@[2]));
            assert(p.node_choices_ok(g.nodes@[3]));
        }
        assert(p.tree_choices_ok(t)) by {
            assert(p.node_choices_ok(t.nodes@[0]));
            assert(p.node_choices_ok(t.nodes@[1]));
        }
        assert(p.entity_blueprints@[0].kind@[0] == 'g' && p.entity_blueprints@[1].kind@[0] == 't');
        assert(p.entity_blueprints@[0].kind@[0] == 'g' && p.entity_blueprints@[2].kind@[0] == 'h');
        assert(p.entity_blueprints@[0].kind@[0] == 'g' && p.entity_blueprints@[3].kind@[0] == 'w');
        assert(p.entity_blueprints@[0].kind@[0] == 'g' && p.entity_blueprints@[4].kind@[0] == 'd');
        assert(p.entity_blueprints@[0].kind@[0] == 'g' && p.entity_blueprints@[5].kind@[0] == 'p');
        assert(p.entity_blueprints@[0].kind@[0] == 'g' && p.entity_blueprints@[6].kind@[0] == 'c');
        assert(p.entity_blueprints@[0].kind@[0] == 'g' && p.entity_blueprints@[7].kind@[0] == 'w');
        assert(p.entity_blueprints@[0].kind@[0] == 'g' && p.entity_blueprints@[8].kind@[0] == 't');
        assert(p.entity_blueprints@[1].kind@[0] == 't' && p.entity_blueprints@[2].kind@[0] == 'h');
        assert(p.entity_blueprints@[1].kind@[0] == 't' && p.entity_blueprints@[3].kind@[0] == 'w');
        assert(p.entity_blueprints@[1].kind@[0] == 't' && p.entity_blueprints@[4].kind@[0] == 'd');
        assert(p.entity_blueprints@[1].kind@[0] == 't' && p.entity_blueprints@[5].kind@[0] == 'p');
        assert(p.entity_blueprints@[1].kind@[0] == 't' && p.entity_blueprints@[6].kind@[0] == 'c');
        assert(p.entity_blueprints@[1].kind@[0] == 't' && p.entity_blueprints@[7].kind@[0] == 'w');
        assert(p.entity_blueprints@[1].kind@[5] == 'e' && p.entity_blueprints@[8].kind@[5] == 'i');
        assert(p.entity_blueprints@[2].kind@[0] == 'h' && p.entity_blueprints@[3].kind@[0] == 'w');
        assert(p.entity_blueprints@[2].kind@[0] == 'h' && p.entity_blueprints@[4].kind@[0] == 'd');
        assert(p.entity_blueprints@[2].kind@[0] == 'h' && p.entity_blueprints@[5].kind@[0] == 'p');
        assert(p.entity_blueprints@[2].kind@[0] == 'h' && p.entity_blueprints@[6].kind@[0] == 'c');
        assert(p.entity_blueprints@[2].kind@[0] == 'h' && p.entity_blueprints@[7].kind@[0] == 'w');
        assert(p.entity_blueprints@[2].kind@[0] == 'h' && p.entity_blueprints@[8].kind@[0] == 't');
        assert(p.entity_blueprints@[3].kind@[0] == 'w' && p.entity_blueprints@[4].kind@[0] == 'd');
        assert(p.entity_blueprints@[3].kind@[0] == 'w' && p.entity_blueprints@[5].kind@[0] == 'p');
        assert(p.entity_blueprints@[3].kind@[0] == 'w' && p.entity_blueprints@[6].kind@[0] == 'c');
        assert(p.entity_blueprints@[3].kind@[2] == 'l' && p.entity_blueprints@[7].kind@[2] == 'o');
        assert(p.entity_blueprints@[3].kind@[0] == 'w' && p.entity_blueprints@[8].kind@[0] == 't');
        assert(p.entity_blueprints@[4].kind@[0] == 'd' && p.entity_blueprints@[5].kind@[0] == 'p');
        assert(p.entity_blueprints@[4].kind@[0] == 'd' && p.entity_blueprints@[6].kind@[0] == 'c');
        assert(p.entity_blueprints@[4].kind@[0] == 'd' && p.entity_blueprints@[7].kind@[0] == 'w');
        assert(p.entity_blueprints@[4].kind@[0] == 'd' && p.entity_blueprints@[8].kind@[0] == 't');
        assert(p.entity_blueprints@[5].kind@[0] == 'p' && p.entity_blueprints@[6].kind@[0] == 'c');
        assert(p.entity_blueprints@[5].kind@[0] == 'p' && p.entity_blueprints@[7].kind@[0] == 'w');
        assert(p.entity_blueprints@[5].kind@[0] == 'p' && p.entity_blueprints@[8].kind@[0] == 't');
        assert(p.entity_blueprints@[6].kind@[0] == 'c' && p.entity_blueprints@[7].kind@[0] == 'w');
        assert(p.entity_blueprints@[6].kind@[0] == 'c' && p.entity_blueprints@[8].kind@[0] == 't');
        assert(p.entity_blueprints@[7].kind@[0] == 'w' && p.entity_blueprints@[8].kind@[0] == 't');
        assert(p.item_defs@[0].id@[0] == 'c' && p.item_defs@[1].id@[0] == 'h');
        assert(p.item_defs@[0].id@[0] == 'c' && p.item_defs@[2].id@[0] == 'b');
        assert(p.item_defs@[0].id@[0] == 'c' && p.item_defs@[3].id@[0] == 'i');
        assert(p.item_defs@[0].id@[0] == 'c' && p.item_defs@[4].id@[0] == 'h');
        assert(p.item_defs@[0].id@[0] == 'c' && p.item_defs@[5].id@[0] == 'a');
        assert(p.item_defs@[1].id@[0] == 'h' && p.item_defs@[2].id@[0] == 'b');
        assert(p.item_defs@[1].id@[0] == 'h' && p.item_defs@[3].id@[0] == 'i');
        assert(p.item_defs@[1].id@[1] == 'e' && p.item_defs@[4].id@[1] == 'u');
        assert(p.item_defs@[1].id@[0] == 'h' && p.item_defs@[5].id@[0] == 'a');
        assert(p.item_defs@[2].id@[0] == 'b' && p.item_defs@[3].id@[0] == 'i');
        assert(p.item_defs@[2].id@[0] == 'b' && p.item_defs@[4].id@[0] == 'h');
        assert(p.item_defs@[2].id@[0] == 'b' && p.item_defs@[5].id@[0] == 'a');
        assert(p.item_defs@[3].id@[0] == 'i' && p.item_defs@[4].id@[0] == 'h');
        assert(p.item_defs@[3].id@[0] == 'i' && p.item_defs@[5].id@[0] == 'a');
        assert(p.item_defs@[4].id@[0] == 'h' && p.item_defs@[5].id@[0] == 'a');
        assert(p.dialogues@[0].0@ != p.dialogues@[1].0@);
        reveal_with_fuel(crate::search::first_match, 3);
        assert(p.spec_dialogue_index("guide"@) is Some);
        assert(p.spec_dialogue_index("trainer"@) is Some);
        assert forall|kind: Seq<char>| #[trigger] p.spec_blueprint(kind) is Some implies p.spec_blueprint(kind)->0.base_speed
            <= crate::combat::MAX_COMBAT_SPEED by {
            crate::search::lemma_first_match(
                p.entity_blueprints@.len() as int,
                |j: int| p.entity_blueprints@[j].kind@ == kind,
            );
        }
    }
    p
}

} // verus!
