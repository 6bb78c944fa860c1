//! Conversations: choosing, continuing and leaving a dialogue, and what a choice does.

use vstd::prelude::*;

use crate::content::{ContentPack, ContentRuntimeHooks, DialogueAction, DialogueTree, Effect};
use crate::input::{InputEvent, Key, MouseButton};
use crate::narrative::NarrativeState;
use crate::narrative_effects::effects_applied;
use super::dialogue::visible_choices;
use super::key_commands::{GameCommand, GameInput};
use super::mode_input::{line_logged, mode_closed, modes_set, with_top};
use super::modes::GameMode;
use super::services::combat::spar_started;
use super::state::{lemma_lines_push, lines, log_line, Game, PendingForcedDialogue};

verus! {

/// What the dialogue screen reports under the pointer.
#[derive(Clone, Copy, Debug, PartialEq, Eq, Structural)]
pub enum DialoguePick {
    /// The `i`-th choice on offer.
    Choice(usize),
    /// The continue row of a node without choices.
    Continue,
}

/// The dialogue tree registered under `id`, or the pack's default one.
pub open spec fn tree_for(content: &ContentPack, id: Seq<char>) -> DialogueTree {
    match content.spec_dialogue_index(id) {
        Some(j) => content.dialogues@[j].1,
        None => content.default_dialogue,
    }
}

/// The active mode of `g`.
pub open spec fn top(g: &Game<impl ContentRuntimeHooks>) -> GameMode {
    g.modes.stack@.last()
}

/// The tree of the active dialogue of `g`.
pub open spec fn top_tree<H: ContentRuntimeHooks>(g: &Game<H>) -> DialogueTree {
    tree_for(&g.content, g.modes.stack@.last()->dialogue_id@)
}

/// `after` follows `before` once `effs` ran on the narrative, a failure being logged as
/// `prefix` and its reason; `ok` tells whether all ran.
pub open spec fn effects_ran<H: ContentRuntimeHooks>(
    before: &Game<H>,
    after: &Game<H>,
    effs: Seq<Effect>,
    prefix: Seq<char>,
    ok: bool,
) -> bool {
    exists|n1: NarrativeState, l1: Seq<Seq<char>>, err: Option<Seq<char>>|
        #[trigger] effects_applied(before.narrative, lines(before.log@), effs, n1, l1, err) && {
            &&& *after == (Game { narrative: after.narrative, log: after.log, ..*before })
            &&& after.narrative == n1
            &&& ok == (err is None)
            &&& lines(after.log@) == match err {
                None => l1,
                Some(m) => l1.push(prefix + m),
            }
        }
}

/// `after` is `before` with the active dialogue's choice cursor at `c`.
pub open spec fn cursor_set<H: ContentRuntimeHooks>(before: &Game<H>, after: &Game<H>, c: int) -> bool {
    let m = before.modes.stack@.last();
    modes_set(before, after, with_top(before.modes.stack@, GameMode::Dialogue {
        npc_entity: m->npc_entity,
        dialogue_id: m->dialogue_id,
        node_index: m->node_index,
        choice_cursor: c as usize,
    }))
}

/// `after` follows `before` once the active dialogue moved to node `k` of `t` (cursor on the
/// first choice) and that node's effects ran.
pub open spec fn node_entered<H: ContentRuntimeHooks>(before: &Game<H>, after: &Game<H>, t: DialogueTree, k: int) -> bool {
    let m = before.modes.stack@.last();
    exists|mid: Game<H>|
        #[trigger] modes_set(
            before,
            &mid,
            with_top(before.modes.stack@, GameMode::Dialogue {
                npc_entity: m->npc_entity,
                dialogue_id: m->dialogue_id,
                node_index: k as usize,
                choice_cursor: 0,
            }),
        ) && if 0 <= k < t.nodes@.len() {
            exists|ok: bool| #[trigger] effects_ran(&mid, after, t.nodes@[k].effects@, "Dialogue node effect failed: "@, ok)
        } else {
            *after == mid
        }
}

/// Continuing from a node without choices: its follow-up node is entered, or the dialogue
/// closes when the follow-up is the exit (nothing without a follow-up).
pub open spec fn continued<H: ContentRuntimeHooks>(before: &Game<H>, after: &Game<H>) -> bool {
    let t = top_tree(before);
    let k = before.modes.stack@.last()->node_index as int;
    if k >= t.nodes@.len() {
        mode_closed(before, after)
    } else {
        match t.nodes@[k].auto_next {
            None => *after == *before,
            Some(next) => if next == t.nodes@.len() {
                mode_closed(before, after)
            } else {
                node_entered(before, after, t, next as int)
            },
        }
    }
}

/// `after` follows `g`, or a spar against `npc` started from it when `spar` holds.
pub open spec fn maybe_spar<H: ContentRuntimeHooks>(g: &Game<H>, after: &Game<H>, spar: bool, npc: crate::entity::EntityId) -> bool {
    if spar { spar_started(g, after, npc) } else { *after == *g }
}

/// Taking the choice under the cursor: its effects run (a failure is logged and ends it);
/// then the dialogue closes when the choice leads to the exit, or moves to the node it
/// leads to; a training-spar choice then closes the dialogue and starts the spar. Nothing
/// happens when the cursor is past the choices on offer.
pub open spec fn chose<H: ContentRuntimeHooks>(before: &Game<H>, after: &Game<H>) -> bool {
    let m = before.modes.stack@.last();
    let t = top_tree(before);
    let k = m->node_index as int;
    if k >= t.nodes@.len() {
        mode_closed(before, after)
    } else {
        let node = t.nodes@[k];
        let vis = visible_choices(before.narrative, node.choices@, node.choices@.len() as int);
        let c = m->choice_cursor as int;
        if c >= vis.len() {
            *after == *before
        } else {
            let choice = node.choices@[vis[c] as int];
            let spar = choice.action == Some(DialogueAction::StartTrainingSpar);
            exists|g1: Game<H>, ok: bool|
                #[trigger] effects_ran(before, &g1, choice.effects@, "Dialogue effect failed: "@, ok) && if !ok {
                    *after == g1
                } else if choice.next == t.nodes@.len() {
                    exists|g2: Game<H>| #[trigger] mode_closed(&g1, &g2) && maybe_spar(&g2, after, spar, m->npc_entity)
                } else {
                    exists|g2: Game<H>|
                        #[trigger] node_entered(&g1, &g2, t, choice.next as int) && if spar {
                            exists|g3: Game<H>| #[trigger] mode_closed(&g2, &g3) && spar_started(&g3, after, m->npc_entity)
                        } else {
                            *after == g2
                        }
                }
        }
    }
}

/// The digit key pressed, if `ev` is one: `'1'` is 0; `'0'` also picks the first choice.
pub open spec fn digit_pick(ev: InputEvent) -> Option<int> {
    match ev {
        InputEvent::Key(ch) => match ch.key {
            Key::Char(c) => if '0' <= c <= '9' {
                Some(if c >= '1' { c as int - '1' as int } else { 0 })
            } else {
                None
            },
            _ => None,
        },
        _ => None,
    }
}

/// `i`, or `last` when it lies beyond.
pub open spec fn clamp_to(i: int, last: int) -> int {
    if i < last { i } else { last }
}

/// The choice a left click landed on.
pub open spec fn clicked_choice(ev: InputEvent, picked: Option<DialoguePick>) -> Option<int> {
    if is_left_click(ev) {
        match picked {
            Some(DialoguePick::Choice(i)) => Some(i as int),
            _ => None,
        }
    } else {
        None
    }
}

/// A left click.
pub open spec fn is_left_click(ev: InputEvent) -> bool {
    ev matches InputEvent::MouseDown { button: MouseButton::Left, .. }
}

/// The key `e` (any modifiers).
pub open spec fn is_e_key(ev: InputEvent) -> bool {
    ev matches InputEvent::Key(ch) && ch.key == Key::Char('e')
}

/// A click on a choice, or a digit key, on a node offering `n` choices: the cursor goes
/// there and the choice is taken; anything else changes nothing.
pub open spec fn raw_choice_handled<H: ContentRuntimeHooks>(
    before: &Game<H>,
    after: &Game<H>,
    e: InputEvent,
    picked: Option<DialoguePick>,
    n: int,
) -> bool {
    if clicked_choice(e, picked) is Some {
        exists|mid: Game<H>|
            #[trigger] cursor_set(before, &mid, clamp_to(clicked_choice(e, picked)->0, n - 1)) && chose(&mid, after)
    } else if digit_pick(e) is Some && digit_pick(e)->0 < n {
        exists|mid: Game<H>| #[trigger] cursor_set(before, &mid, digit_pick(e)->0) && chose(&mid, after)
    } else {
        *after == *before
    }
}

/// The dialogue screen after input `ev` (with `picked` what lies under the pointer):
/// - a node past the end of its tree closes the dialogue;
/// - on a node without choices: with a follow-up, confirm, `e` or a click on the continue
///   row continues (see [`continued`]) and back closes; without one, the dialogue closes
///   with the note "No available dialogue choices.";
/// - on a node whose choices are all hidden, likewise;
/// - otherwise back closes, the list keys move the cursor within the choices on offer,
///   confirm takes the choice under the cursor (see [`chose`]), and a click on a choice or
///   a digit key (1 for the first) puts the cursor there and takes it;
/// - anything else changes nothing.
pub open spec fn dialogue_handled<H: ContentRuntimeHooks>(
    before: &Game<H>,
    after: &Game<H>,
    ev: GameInput,
    picked: Option<DialoguePick>,
) -> bool {
    let m = before.modes.stack@.last();
    let t = top_tree(before);
    let k = m->node_index as int;
    let note_close = exists|mid: Game<H>|
        #[trigger] mode_closed(before, &mid) && line_logged(&mid, after, "No available dialogue choices."@);
    if k >= t.nodes@.len() {
        mode_closed(before, after)
    } else {
        let node = t.nodes@[k];
        let vis = visible_choices(before.narrative, node.choices@, node.choices@.len() as int);
        let last = vis.len() - 1;
        if node.choices@.len() == 0 {
            if node.auto_next is Some {
                match ev {
                    GameInput::Command(GameCommand::Confirm) => continued(before, after),
                    GameInput::Command(GameCommand::Back) => mode_closed(before, after),
                    GameInput::Raw(e) => if (is_left_click(e) && picked == Some(DialoguePick::Continue)) || is_e_key(e) {
                        continued(before, after)
                    } else {
                        *after == *before
                    },
                    _ => *after == *before,
                }
            } else {
                note_close
            }
        } else if vis.len() == 0 {
            note_close
        } else {
            match ev {
                GameInput::Command(GameCommand::Back) => mode_closed(before, after),
                GameInput::Command(GameCommand::ListPrev) => cursor_set(
                    before,
                    after,
                    if m->choice_cursor > 0 { m->choice_cursor - 1 } else { 0 },
                ),
                GameInput::Command(GameCommand::ListNext) => cursor_set(
                    before,
                    after,
                    if m->choice_cursor + 1 < last { m->choice_cursor + 1 } else { last },
                ),
                GameInput::Command(GameCommand::Confirm) => chose(before, after),
                GameInput::Raw(e) => raw_choice_handled(before, after, e, picked, vis.len() as int),
                _ => *after == *before,
            }
        }
    }
}

/// Runs `effects` on `narrative`, logging a failure as `prefix` and its reason; true when
/// all ran.
fn run_effects(narrative: &mut NarrativeState, log: &mut Vec<String>, effects: &Vec<Effect>, prefix: &str) -> (ok: bool)
    ensures
        exists|l1: Seq<Seq<char>>, err: Option<Seq<char>>|
            #[trigger] effects_applied(*old(narrative), lines(old(log)@), effects@, *final(narrative), l1, err) && ok == (
            err is None) && lines(final(log)@) == match err {
                None => l1,
                Some(m) => l1.push(prefix@ + m),
            },
{
    let ghost n0 = *narrative;
    let ghost l0 = lines(log@);
    match narrative.apply_effects(log, effects) {
        Ok(()) => {
            assert(effects_applied(n0, l0, effects@, *narrative, lines(log@), None));
            true
        },
        Err(e) => {
            let ghost l1 = lines(log@);
            let ghost m = e.reason@;
            assert(effects_applied(n0, l0, effects@, *narrative, l1, Some(m)));
            let line = String::from_str(prefix).concat(e.reason.as_str());
            proof { lemma_lines_push(log@, line); }
            log.push(line);
            assert(lines(log@) == l1.push(prefix@ + m));
            false
        },
    }
}

/// The dialogue id of `npc`: its kind (empty without one).
pub open spec fn npc_dialogue_id<H: ContentRuntimeHooks>(g: &Game<H>, npc: crate::entity::EntityId) -> Seq<char> {
    match g.entities.npc_kind@[npc.0 as int] {
        Some(k) => k@,
        None => Seq::empty(),
    }
}

/// The node a dialogue opened at `node_id` starts on: the first node with that id, else
/// the first one named `hub`, else the first node.
pub open spec fn forced_start(t: DialogueTree, node_id: Seq<char>) -> int {
    match t.spec_node_index(node_id) {
        Some(i) => i,
        None => match t.spec_node_index("hub"@) {
            Some(i) => i,
            None => 0,
        },
    }
}

/// `after` follows `before` once the pending forced dialogue (if any) was taken up: only
/// on the exploration screen; there the request is consumed and, when its npc is alive,
/// its dialogue opens at the requested node (see [`forced_start`] and
/// [`dialogue_started`]).
pub open spec fn forced_dialogue_pumped<H: ContentRuntimeHooks>(before: &Game<H>, after: &Game<H>) -> bool {
    let s = before.modes.stack@;
    if !(s.len() > 0 && s.last() is Exploration) || before.pending_forced_dialogue is None {
        *after == *before
    } else {
        let req = before.pending_forced_dialogue->0;
        let mid = Game { pending_forced_dialogue: None, ..*before };
        if before.entities.spec_is_alive(req.npc) {
            dialogue_started(
                &mid,
                after,
                req.npc,
                forced_start(tree_for(&before.content, npc_dialogue_id(before, req.npc)), req.node_id@),
            )
        } else {
            *after == mid
        }
    }
}

/// `after` follows `before` once a dialogue with `npc` opened on top: the tree of the npc's
/// kind (the pack's default when there is none), at the node `start` that the hooks chose,
/// with the cursor on the first choice, and that node's effects ran.
pub open spec fn dialogue_started<H: ContentRuntimeHooks>(
    before: &Game<H>,
    after: &Game<H>,
    npc: crate::entity::EntityId,
    start: int,
) -> bool {
    let id = npc_dialogue_id(before, npc);
    let t = tree_for(&before.content, id);
    exists|mid: Game<H>|
        #[trigger] opened(before, &mid, npc, id, start) && if 0 <= start < t.nodes@.len() {
            exists|ok: bool| #[trigger] effects_ran(&mid, after, t.nodes@[start].effects@, "Dialogue node effect failed: "@, ok)
        } else {
            *after == mid
        }
}

/// `mid` is `before` with a dialogue mode for `npc` on tree `id` at node `start` pushed.
pub open spec fn opened<H: ContentRuntimeHooks>(
    before: &Game<H>,
    mid: &Game<H>,
    npc: crate::entity::EntityId,
    id: Seq<char>,
    start: int,
) -> bool {
    &&& *mid == (Game { modes: mid.modes, ..*before })
    &&& mid.modes.stack@.len() == before.modes.stack@.len() + 1
    &&& mid.modes.stack@.drop_last() == before.modes.stack@
    &&& mid.modes.stack@.last() matches GameMode::Dialogue { npc_entity, dialogue_id, node_index, choice_cursor }
        && npc_entity == npc && dialogue_id@ == id && node_index == start && choice_cursor == 0
}

/// Every entry of the choices on offer indexes one of the first `k` choices.
proof fn lemma_visible_in_range(n: NarrativeState, choices: Seq<crate::content::DialogueChoice>, k: int)
    ensures
        forall|i: int| 0 <= i < visible_choices(n, choices, k).len() ==> #[trigger] visible_choices(n, choices, k)[i] < k,
    decreases k,
{
    if k > 0 {
        lemma_visible_in_range(n, choices, k - 1);
        let prev = visible_choices(n, choices, k - 1);
        assert forall|i: int| 0 <= i < visible_choices(n, choices, k).len() implies #[trigger] visible_choices(
            n,
            choices,
            k,
        )[i] < k by {
            if i < prev.len() {
                assert(visible_choices(n, choices, k)[i] == prev[i]);
                assert(prev[i] < k - 1);
            }
        }
    }
}

/// The active dialogue is the top mode.
pub open spec fn in_dialogue<H: ContentRuntimeHooks>(g: &Game<H>) -> bool {
    g.modes.stack@.len() > 0 && g.modes.stack@.last() is Dialogue
}

impl<H: ContentRuntimeHooks> Game<H> {
    /// Puts the active dialogue's choice cursor at `v`.
    fn set_dialogue_cursor(&mut self, v: usize)
        requires
            in_dialogue(old(self)),
        ensures
            cursor_set(old(self), final(self), v as int),
            final(self).wf() == old(self).wf(),
    {
        match self.modes.current_mut() {
            Some(GameMode::Dialogue { choice_cursor, .. }) => {
                *choice_cursor = v;
            },
            _ => {},
        }
    }

    /// Moves the active dialogue to node `next` and runs that node's effects (see
    /// [`node_entered`]).
    fn enter_dialogue_node(&mut self, next: usize)
        requires
            old(self).wf(),
            in_dialogue(old(self)),
        ensures
            final(self).wf(),
            node_entered(old(self), final(self), top_tree(old(self)), next as int),
    {
        match self.modes.current_mut() {
            Some(GameMode::Dialogue { node_index, choice_cursor, .. }) => {
                *node_index = next;
                *choice_cursor = 0;
            },
            _ => {},
        }
        let ghost mid = *self;
        assert(modes_set(
            old(self),
            &mid,
            with_top(
                old(self).modes.stack@,
                GameMode::Dialogue {
                    npc_entity: old(self).modes.stack@.last()->npc_entity,
                    dialogue_id: old(self).modes.stack@.last()->dialogue_id,
                    node_index: next,
                    choice_cursor: 0,
                },
            ),
        ));
        let tree = match self.modes.current() {
            Some(GameMode::Dialogue { dialogue_id, .. }) => match self.content.dialogue(dialogue_id.as_str()) {
                Some(t) => t,
                None => &self.content.default_dialogue,
            },
            _ => {
                return;
            },
        };
        assert(*tree == top_tree(old(self)));
        if next < tree.nodes.len() {
            let ok = run_effects(&mut self.narrative, &mut self.log, &tree.nodes[next].effects, "Dialogue node effect failed: ");
            assert(effects_ran(&mid, &*self, tree.nodes@[next as int].effects@, "Dialogue node effect failed: "@, ok));
        }
    }

    /// Continues from a node without choices (see [`continued`]).
    fn dialogue_continue(&mut self)
        requires
            old(self).wf(),
            in_dialogue(old(self)),
        ensures
            final(self).wf(),
            continued(old(self), final(self)),
    {
        let k = match self.modes.current() {
            Some(GameMode::Dialogue { node_index, .. }) => *node_index,
            _ => {
                return;
            },
        };
        let tree = match self.modes.current() {
            Some(GameMode::Dialogue { dialogue_id, .. }) => match self.content.dialogue(dialogue_id.as_str()) {
                Some(t) => t,
                None => &self.content.default_dialogue,
            },
            _ => {
                return;
            },
        };
        assert(*tree == top_tree(old(self)));
        let n = tree.nodes.len();
        if k >= n {
            let _ = self.modes.pop();
            return;
        }
        match tree.nodes[k].auto_next {
            None => {},
            Some(next) => {
                if next == n {
                    let _ = self.modes.pop();
                } else {
                    self.enter_dialogue_node(next);
                }
            },
        }
    }

    /// Takes the choice under the cursor (see [`chose`]).
    fn dialogue_choose(&mut self)
        requires
            old(self).wf(),
            in_dialogue(old(self)),
        ensures
            final(self).wf(),
            chose(old(self), final(self)),
    {
        let (npc, k, c) = match self.modes.current() {
            Some(GameMode::Dialogue { npc_entity, node_index, choice_cursor, .. }) => (*npc_entity, *node_index, *choice_cursor),
            _ => {
                return;
            },
        };
        let tree = match self.modes.current() {
            Some(GameMode::Dialogue { dialogue_id, .. }) => match self.content.dialogue(dialogue_id.as_str()) {
                Some(t) => t,
                None => &self.content.default_dialogue,
            },
            _ => {
                return;
            },
        };
        assert(*tree == top_tree(old(self)));
        let n = tree.nodes.len();
        if k >= n {
            let _ = self.modes.pop();
            return;
        }
        let node = &tree.nodes[k];
        let vis = self.dialogue_visible_choice_indices(node);
        if c >= vis.len() {
            return;
        }
        let raw = vis[c];
        proof {
            lemma_visible_in_range(self.narrative, node.choices@, node.choices@.len() as int);
        }
        let choice = &node.choices[raw];
        let spar = choice.action.is_some();
        let next = choice.next;
        let ghost effs = choice.effects@;
        proof {
            let m = old(self).modes.stack@.last();
            assert(npc == m->npc_entity && k == m->node_index && c == m->choice_cursor);
            assert(*choice == top_tree(old(self)).nodes@[k as int].choices@[vis@[c as int] as int]);
            if let Some(a) = choice.action {
                assert(a == DialogueAction::StartTrainingSpar);
            }
            assert(spar == (choice.action == Some(DialogueAction::StartTrainingSpar)));
        }
        let ok = run_effects(&mut self.narrative, &mut self.log, &choice.effects, "Dialogue effect failed: ");
        let ghost g1 = *self;
        assert(effects_ran(old(self), &g1, effs, "Dialogue effect failed: "@, ok));
        if !ok {
            return;
        }
        if next == n {
            let _ = self.modes.pop();
            let ghost g2 = *self;
            assert(mode_closed(&g1, &g2));
            if spar {
                self.start_training_spar(npc);
            }
            assert(maybe_spar(&g2, &*self, spar, npc));
            assert(exists|g2: Game<H>| #[trigger] mode_closed(&g1, &g2) && maybe_spar(&g2, &*self, spar, npc));
            return;
        }
        self.enter_dialogue_node(next);
        let ghost g2 = *self;
        assert(node_entered(&g1, &g2, top_tree(old(self)), next as int));
        if spar {
            let _ = self.modes.pop();
            let ghost g3 = *self;
            assert(mode_closed(&g2, &g3));
            self.start_training_spar(npc);
            assert(exists|g3: Game<H>| #[trigger] mode_closed(&g2, &g3) && spar_started(&g3, &*self, npc));
        }
    }

    /// The dialogue screen (see [`dialogue_handled`]); `picked` is what the screen layout
    /// reports under the pointer.
    pub fn handle_dialogue(&mut self, ev: GameInput, picked: Option<DialoguePick>)
        requires
            old(self).wf(),
            in_dialogue(old(self)),
        ensures
            final(self).wf(),
            dialogue_handled(old(self), final(self), ev, picked),
    {
        let (k, c) = match self.modes.current() {
            Some(GameMode::Dialogue { node_index, choice_cursor, .. }) => (*node_index, *choice_cursor),
            _ => {
                return;
            },
        };
        let tree = match self.modes.current() {
            Some(GameMode::Dialogue { dialogue_id, .. }) => match self.content.dialogue(dialogue_id.as_str()) {
                Some(t) => t,
                None => &self.content.default_dialogue,
            },
            _ => {
                return;
            },
        };
        assert(*tree == top_tree(old(self)));
        if k >= tree.nodes.len() {
            let _ = self.modes.pop();
            return;
        }
        let node = &tree.nodes[k];
        if node.choices.len() == 0 {
            if node.auto_next.is_some() {
                match ev {
                    GameInput::Command(GameCommand::Confirm) => self.dialogue_continue(),
                    GameInput::Command(GameCommand::Back) => {
                        let _ = self.modes.pop();
                    },
                    GameInput::Raw(e) => {
                        let click = match e {
                            InputEvent::MouseDown { button: MouseButton::Left, .. } => match picked {
                                Some(DialoguePick::Continue) => true,
                                _ => false,
                            },
                            _ => false,
                        };
                        let e_key = match e {
                            InputEvent::Key(ch) => match ch.key {
                                Key::Char(x) => x == 'e',
                                _ => false,
                            },
                            _ => false,
                        };
                        if click || e_key {
                            self.dialogue_continue();
                        }
                    },
                    _ => {},
                }
                return;
            }
            let _ = self.modes.pop();
            let ghost mid = *self;
            log_line(&mut self.log, "No available dialogue choices.");
            assert(mode_closed(old(self), &mid));
            assert(line_logged(&mid, &*self, "No available dialogue choices."@));
            assert(exists|mid: Game<H>|
                #[trigger] mode_closed(old(self), &mid) && line_logged(&mid, &*self, "No available dialogue choices."@));
            return;
        }
        let vis = self.dialogue_visible_choice_indices(node);
        if vis.len() == 0 {
            let _ = self.modes.pop();
            let ghost mid = *self;
            log_line(&mut self.log, "No available dialogue choices.");
            assert(mode_closed(old(self), &mid));
            assert(line_logged(&mid, &*self, "No available dialogue choices."@));
            assert(exists|mid: Game<H>|
                #[trigger] mode_closed(old(self), &mid) && line_logged(&mid, &*self, "No available dialogue choices."@));
            return;
        }
        let last = vis.len() - 1;
        match ev {
            GameInput::Command(GameCommand::Back) => {
                let _ = self.modes.pop();
            },
            GameInput::Command(GameCommand::ListPrev) => {
                self.set_dialogue_cursor(if c > 0 { c - 1 } else { 0 });
            },
            GameInput::Command(GameCommand::ListNext) => {
                self.set_dialogue_cursor(if c < last { c + 1 } else { last });
            },
            GameInput::Command(GameCommand::Confirm) => {
                self.dialogue_choose();
            },
            GameInput::Raw(e) => {
                let clicked: Option<usize> = match e {
                    InputEvent::MouseDown { button: MouseButton::Left, .. } => match picked {
                        Some(DialoguePick::Choice(i)) => Some(i),
                        _ => None,
                    },
                    _ => None,
                };
                let digit: Option<usize> = match e {
                    InputEvent::Key(ch) => match ch.key {
                        Key::Char(x) => if '0' <= x && x <= '9' {
                            Some(if x >= '1' { (x as u32 - '1' as u32) as usize } else { 0 })
                        } else {
                            None
                        },
                        _ => None,
                    },
                    _ => None,
                };
                match clicked {
                    Some(i) => {
                        self.set_dialogue_cursor(if i < last { i } else { last });
                        let ghost mid = *self;
                        self.dialogue_choose();
                        assert(cursor_set(old(self), &mid, clamp_to(i as int, last as int)));
                        assert(clicked_choice(e, picked) == Some(i as int));
                        assert(chose(&mid, &*self));
                        assert(ev == GameInput::Raw(e));
                        let ghost n = vis@.len() as int;
                        assert(clamp_to(i as int, last as int) == clamp_to(i as int, n - 1));
                        assert(cursor_set(old(self), &mid, clamp_to(i as int, n - 1)));
                        assert(clicked_choice(e, picked)->0 == i as int);
                        assert(cursor_set(old(self), &mid, clamp_to(clicked_choice(e, picked)->0, n - 1)));
                        assert(raw_choice_handled(old(self), &*self, e, picked, n));
                    },
                    None => match digit {
                        Some(d) => {
                            if d < vis.len() {
                                self.set_dialogue_cursor(d);
                                let ghost mid = *self;
                                self.dialogue_choose();
                                assert(cursor_set(old(self), &mid, d as int));
                                assert(raw_choice_handled(old(self), &*self, e, picked, vis@.len() as int));
                            }
                        },
                        None => {},
                    },
                }
            },
            _ => {},
        }
    }

    /// Opens the dialogue of `npc` (see [`dialogue_started`]); returns the start node the
    /// hooks chose.
    pub fn start_dialogue(&mut self, npc: crate::entity::EntityId) -> (start: usize)
        requires
            old(self).wf(),
            (npc.0 as int) < old(self).entities.len(),
        ensures
            final(self).wf(),
            dialogue_started(old(self), final(self), npc, start as int),
    {
        let i = npc.0 as usize;
        let kind: String = match &self.entities.npc_kind[i] {
            Some(k) => String::from_str(k.as_str()),
            None => String::new(),
        };
        let tree = match self.content.dialogue(kind.as_str()) {
            Some(t) => t,
            None => &self.content.default_dialogue,
        };
        let start = self.hooks.dialogue_start_node(kind.as_str(), tree, &self.narrative);
        let ghost id = kind@;
        self.modes.push(GameMode::Dialogue { npc_entity: npc, dialogue_id: kind, node_index: start, choice_cursor: 0 });
        let ghost mid = *self;
        assert(mid.modes.stack@.drop_last() =~= old(self).modes.stack@);
        assert(opened(old(self), &mid, npc, id, start as int));
        if start < tree.nodes.len() {
            let ok = run_effects(&mut self.narrative, &mut self.log, &tree.nodes[start].effects, "Dialogue node effect failed: ");
            assert(effects_ran(&mid, &*self, tree.nodes@[start as int].effects@, "Dialogue node effect failed: "@, ok));
        }
        start
    }

    /// Opens the dialogue of `npc` at the node `node_id` (see [`forced_start`] and
    /// [`dialogue_started`]); returns the start node.
    pub fn start_dialogue_at_node(&mut self, npc: crate::entity::EntityId, node_id: &str) -> (start: usize)
        requires
            old(self).wf(),
            (npc.0 as int) < old(self).entities.len(),
        ensures
            final(self).wf(),
            start as int == forced_start(tree_for(&old(self).content, npc_dialogue_id(old(self), npc)), node_id@),
            dialogue_started(old(self), final(self), npc, start as int),
    {
        let i = npc.0 as usize;
        let kind: String = match &self.entities.npc_kind[i] {
            Some(k) => String::from_str(k.as_str()),
            None => String::new(),
        };
        let tree = match self.content.dialogue(kind.as_str()) {
            Some(t) => t,
            None => &self.content.default_dialogue,
        };
        let start = match tree.node_index(node_id) {
            Some(k) => k,
            None => match tree.node_index("hub") {
                Some(k) => k,
                None => 0,
            },
        };
        let ghost id = kind@;
        self.modes.push(GameMode::Dialogue { npc_entity: npc, dialogue_id: kind, node_index: start, choice_cursor: 0 });
        let ghost mid = *self;
        assert(mid.modes.stack@.drop_last() =~= old(self).modes.stack@);
        assert(opened(old(self), &mid, npc, id, start as int));
        if start < tree.nodes.len() {
            let ok = run_effects(&mut self.narrative, &mut self.log, &tree.nodes[start].effects, "Dialogue node effect failed: ");
            assert(effects_ran(&mid, &*self, tree.nodes@[start as int].effects@, "Dialogue node effect failed: "@, ok));
        }
        start
    }

    /// Takes up a pending forced dialogue (see [`forced_dialogue_pumped`]).
    pub fn pump_pending_forced_dialogue(&mut self)
        requires
            old(self).wf(),
        ensures
            final(self).wf(),
            forced_dialogue_pumped(old(self), final(self)),
    {
        let explore = match self.modes.current() {
            Some(GameMode::Exploration) => true,
            _ => false,
        };
        if !explore {
            return;
        }
        let req: Option<PendingForcedDialogue> = self.pending_forced_dialogue.take();
        match req {
            Some(p) => {
                if self.entities.is_alive(p.npc) {
                    self.start_dialogue_at_node(p.npc, p.node_id.as_str());
                }
            },
            None => {},
        }
    }
}

} // verus!
