//! One frame of the game: each input event goes to the handler of the active screen, then
//! the world advances by a tick (encounter AI, exploration AI, the player's walk, queued
//! actions and dialogues, deferred effects, the spell cooldown and the surface animation).

use vstd::prelude::*;

use crate::content::ContentRuntimeHooks;
use crate::entity::GridPos;
use crate::game::combat_input::combat_input_handled;
use crate::game::dialogue_input::{dialogue_handled, forced_dialogue_pumped, DialoguePick};
use crate::game::inventory_input::inventory_handled;
use crate::game::key_commands::{GameCommand, GameInput};
use crate::game::menu_input::menu_handled;
use crate::game::mode_input::{game_over_handled, journal_handled, spell_targeting_handled};
use crate::game::modes::GameMode;
use crate::game::movement::explore_handled;
use crate::game::transfer::item_transfer_handled;
use crate::game::spell::SpellKind;
use crate::combat::CombatState;
use crate::game::pending::effects_ticked;
use crate::game::player_actions::pending_action_pumped;
use crate::game::services::behavior::exploration_ai_stepped;
use crate::game::services::combat_ai::{combat_ai_stepped, step_npc_combat_ai};
use crate::game::state::{in_combat, Game};
use crate::game::walk::walk_stepped;
use crate::game::combat_clicks::{encounter_clicked, encounter_march_ordered};
use crate::input::{InputEvent, MouseButton};

verus! {

/// Where the pointer of an input event landed, as the screen layout reports it: the world
/// cell under it, the list row under it (menu, inventory, journal) and the dialogue choice
/// under it.
#[derive(Clone, Copy, Debug)]
pub struct PointerHit {
    pub world: Option<GridPos>,
    pub row: Option<usize>,
    pub choice: Option<DialoguePick>,
}

/// The input of one frame: each event with where its pointer landed, and whether the map
/// is larger than the view (so that step keys pan it).
#[derive(Clone, Debug)]
pub struct InputBatch {
    pub events: Vec<(InputEvent, PointerHit)>,
    pub view_pans: bool,
}

impl Default for InputBatch {
    /// A frame without input, on a map that fits the view.
    fn default() -> (b: InputBatch)
        ensures
            b.events@.len() == 0,
            !b.view_pans,
    {
        InputBatch { events: Vec::new(), view_pans: false }
    }
}

/// What an input asks of the shell: a view shift, a restart of the game from the menu, or
/// writing (`save`) or reading (`load`) the quick save.
#[derive(Clone, Copy, Debug)]
pub struct RouteOutcome {
    pub pan: Option<(i32, i32)>,
    pub restart: bool,
    pub save: bool,
    pub load: bool,
}

/// An outcome asking nothing of the shell.
pub open spec fn quiet(o: RouteOutcome) -> bool {
    o.pan is None && !o.restart && !o.save && !o.load
}

/// Exploration without a turn clock is on top, where the quick save keys work.
pub open spec fn quick_save_screen<H: ContentRuntimeHooks>(g: &Game<H>) -> bool {
    g.modes.stack@.len() > 0 && g.modes.stack@.last() is Exploration && g.turn_clock is None
}

/// The player stands (if at all) where a step in any direction stays within `i32`.
pub open spec fn explore_ok<H: ContentRuntimeHooks>(g: &Game<H>) -> bool {
    g.spec_player_pos() matches Some(p) ==> i32::MIN < p.x < i32::MAX && i32::MIN < p.y < i32::MAX
}

/// The encounter on top has one AP entry per participant, and its current actor stands
/// (if at all) where a step in any direction stays within `i32`.
pub open spec fn combat_input_ok<H: ContentRuntimeHooks>(g: &Game<H>) -> bool {
    let s = g.modes.stack@;
    &&& s.len() > 0
    &&& s.last() matches GameMode::Combat(c) && c.wf() && (c@.current_actor() matches Some(a) ==> (
        g.entities.spec_pos(a) matches Some(p) ==> i32::MIN < p.x < i32::MAX && i32::MIN < p.y < i32::MAX))
}

/// A step key does not push the aim past the `i32` range.
pub open spec fn targeting_ok(ev: GameInput, cursor: GridPos) -> bool {
    &&& ev == GameInput::Command(GameCommand::StepNorth) ==> cursor.y > i32::MIN
    &&& ev == GameInput::Command(GameCommand::StepSouth) ==> cursor.y < i32::MAX
    &&& ev == GameInput::Command(GameCommand::StepWest) ==> cursor.x > i32::MIN
    &&& ev == GameInput::Command(GameCommand::StepEast) ==> cursor.x < i32::MAX
}

/// `after` (and what is asked of the shell, `out`) follows `before` once input `ev` went
/// to the active screen, with `hit` telling where its pointer landed:
/// - the main menu, dialogue, inventory, journal, transfer, spell-targeting and game-over
///   screens handle it as their handlers say (only the menu may ask for a restart);
/// - exploration handles it (see [`explore_handled`]), unless a turn clock runs there;
/// - an encounter handles it (see [`combat_input_handled`]); a left or right click on a
///   world cell there acts on the encounter (see [`encounter_clicked`] and
///   [`encounter_march_ordered`]);
/// - with no screen, nothing happens.
/// Input the handlers cannot take (a position or aim at the edge of the `i32` range, an
/// encounter whose AP list does not match its initiative) changes nothing. The quick save
/// and quick load keys, while exploring, ask the shell to write or read the save.
pub open spec fn routed<H: ContentRuntimeHooks>(
    before: &Game<H>,
    after: &Game<H>,
    ev: GameInput,
    hit: PointerHit,
    view_pans: bool,
    out: RouteOutcome,
) -> bool {
    let s = before.modes.stack@;
    &&& out.save == (quick_save_screen(before) && ev == GameInput::Command(GameCommand::QuickSave))
    &&& out.load == (quick_save_screen(before) && ev == GameInput::Command(GameCommand::QuickLoad))
    &&& if s.len() == 0 {
        quiet(out) && *after == *before
    } else {
        match s.last() {
            GameMode::MainMenu { .. } => out.pan is None && menu_handled(before, after, ev, hit.row, out.restart),
            GameMode::Exploration => !out.restart && if before.turn_clock is None && explore_ok(before) {
                explore_handled(before, after, ev, view_pans, hit.world, out.pan)
            } else {
                out.pan is None && *after == *before
            },
            GameMode::Dialogue { .. } => quiet(out) && dialogue_handled(before, after, ev, hit.choice),
            GameMode::Inventory { .. } => quiet(out) && inventory_handled(before, after, ev, hit.row),
            GameMode::Journal { .. } => quiet(out) && journal_handled(before, after, ev, hit.row),
            GameMode::ItemTransfer { .. } => quiet(out) && item_transfer_handled(before, after, ev),
            GameMode::Combat(_) => !out.restart && match (ev, hit.world) {
                (GameInput::Raw(InputEvent::MouseDown { button: MouseButton::Left, .. }), Some(wp)) => out.pan is None
                    && encounter_clicked(before, after, wp),
                (GameInput::Raw(InputEvent::MouseDown { button: MouseButton::Right, .. }), Some(wp)) => out.pan is None
                    && encounter_march_ordered(before, after, wp),
                _ => if combat_input_ok(before) {
                    combat_input_handled(before, after, ev, view_pans, out.pan)
                } else {
                    out.pan is None && *after == *before
                },
            },
            GameMode::SpellTargeting { spell, cursor } => quiet(out) && if targeting_ok(ev, cursor) {
                spell_targeting_handled(before, after, ev, spell, cursor, hit.world)
            } else {
                *after == *before
            },
            GameMode::GameOver => quiet(out) && game_over_handled(before, after, ev),
        }
    }
}

/// `after` (and `out`) follows `before` once event `ev` came in, `hit` telling where its
/// pointer landed: an event that stands for no game input (see
/// [`Game::spec_resolve_game_input`]) changes nothing; any other goes to the active screen
/// (see [`routed`]).
pub open spec fn event_routed<H: ContentRuntimeHooks>(
    before: &Game<H>,
    after: &Game<H>,
    ev: InputEvent,
    hit: PointerHit,
    view_pans: bool,
    out: RouteOutcome,
) -> bool {
    match before.spec_resolve_game_input(ev) {
        None => quiet(out) && *after == *before,
        Some(gi) => routed(before, after, gi, hit, view_pans, out),
    }
}

/// `gs` are the states the first `k` events of `evs` passed through, `outs` what each
/// asked of the shell.
pub open spec fn events_routed<H: ContentRuntimeHooks>(
    gs: Seq<Game<H>>,
    evs: Seq<(InputEvent, PointerHit)>,
    view_pans: bool,
    outs: Seq<RouteOutcome>,
    k: int,
) -> bool {
    &&& gs.len() == k + 1
    &&& outs.len() == k
    &&& forall|i: int| 0 <= i < k ==> #[trigger] event_routed(&gs[i], &gs[i + 1], evs[i].0, evs[i].1, view_pans, outs[i])
}

/// The encounter on top, if any.
pub open spec fn top_encounter<H: ContentRuntimeHooks>(g: &Game<H>) -> Option<CombatState> {
    if in_combat(g.modes.stack@) {
        Some(g.modes.stack@.last()->Combat_0)
    } else {
        None
    }
}

/// The encounter AI's tick (see [`combat_ai_stepped`]), skipped for an encounter whose AP
/// list does not match its initiative.
pub open spec fn combat_ai_ticked<H: ContentRuntimeHooks>(before: &Game<H>, after: &Game<H>) -> bool {
    if in_combat(before.modes.stack@) && !before.modes.stack@.last()->Combat_0.wf() {
        *after == *before
    } else {
        combat_ai_stepped(before, after)
    }
}

/// `after` follows `before` once the world advanced a tick: the encounter AI, the
/// exploration AI, the player's walk, the queued action and the queued dialogue each have
/// their tick in this order, the deferred effects tick against the encounter on top, the
/// spell cooldown counts down (not below 0) and the surface animation advances (wrapping).
pub open spec fn world_ticked<H: ContentRuntimeHooks>(before: &Game<H>, after: &Game<H>) -> bool {
    exists|g1: Game<H>, g2: Game<H>, g3: Game<H>, g4: Game<H>, g5: Game<H>, g6: Game<H>|
        #![trigger combat_ai_ticked(before, &g1), walk_stepped(&g2, &g3), forced_dialogue_pumped(&g4, &g5), effects_ticked(&g5, &g6, top_encounter(&g5))]
        {
            &&& combat_ai_ticked(before, &g1)
            &&& exploration_ai_stepped(&g1, &g2)
            &&& walk_stepped(&g2, &g3)
            &&& pending_action_pumped(&g3, &g4)
            &&& forced_dialogue_pumped(&g4, &g5)
            &&& effects_ticked(&g5, &g6, top_encounter(&g5))
            &&& *after == (Game {
                fireball_cooldown_ticks: if g6.fireball_cooldown_ticks > 0 { (g6.fireball_cooldown_ticks - 1) as u16 } else { 0 },
                surface_tick: if g6.surface_tick == u64::MAX { 0 } else { (g6.surface_tick + 1) as u64 },
                ..g6
            })
        }
}

/// `after` (and `outs`, what each event asked of the shell) follows `before` over one
/// frame with input `evs`: the events go to the active screens in order (see
/// [`event_routed`]), then the world advances a tick (see [`world_ticked`]).
pub open spec fn stepped<H: ContentRuntimeHooks>(
    before: &Game<H>,
    after: &Game<H>,
    evs: Seq<(InputEvent, PointerHit)>,
    view_pans: bool,
    outs: Seq<RouteOutcome>,
) -> bool {
    exists|gs: Seq<Game<H>>|
        #[trigger] events_routed(gs, evs, view_pans, outs, evs.len() as int) && gs[0] == *before && world_ticked(
            &gs.last(),
            after,
        )
}

/// Which screen is on top, as a plain tag.
enum Screen {
    NoScreen,
    Menu,
    Explore,
    Talk,
    Bag,
    Journal,
    Transfer,
    Encounter,
    Targeting(SpellKind, GridPos),
    Over,
}

impl<H: ContentRuntimeHooks> Game<H> {
    fn explore_input_ok(&self) -> (b: bool)
        ensures
            b == explore_ok(self),
    {
        match self.entities.player {
            Some(pid) => match self.entities.pos(pid) {
                Some(p) => p.x > i32::MIN && p.x < i32::MAX && p.y > i32::MIN && p.y < i32::MAX,
                None => true,
            },
            None => true,
        }
    }

    fn encounter_input_ok(&self) -> (b: bool)
        ensures
            b == combat_input_ok(self),
    {
        match self.modes.current() {
            Some(GameMode::Combat(c)) => {
                if c.ap_remaining.len() != c.initiative.len() {
                    return false;
                }
                match c.current_actor() {
                    Some(a) => match self.entities.pos(a) {
                        Some(p) => p.x > i32::MIN && p.x < i32::MAX && p.y > i32::MIN && p.y < i32::MAX,
                        None => true,
                    },
                    None => true,
                }
            },
            _ => false,
        }
    }

    /// Sends input `ev` to the active screen (see [`routed`]).
    pub fn route(&mut self, ev: GameInput, hit: PointerHit, view_pans: bool) -> (out: RouteOutcome)
        requires
            old(self).wf(),
        ensures
            final(self).wf(),
            routed(old(self), final(self), ev, hit, view_pans, out),
    {
        let none = RouteOutcome { pan: None, restart: false, save: false, load: false };
        let screen = match self.modes.current() {
            None => Screen::NoScreen,
            Some(GameMode::MainMenu { .. }) => Screen::Menu,
            Some(GameMode::Exploration) => Screen::Explore,
            Some(GameMode::Dialogue { .. }) => Screen::Talk,
            Some(GameMode::Inventory { .. }) => Screen::Bag,
            Some(GameMode::Journal { .. }) => Screen::Journal,
            Some(GameMode::ItemTransfer { .. }) => Screen::Transfer,
            Some(GameMode::Combat(_)) => Screen::Encounter,
            Some(GameMode::SpellTargeting { spell, cursor }) => Screen::Targeting(*spell, *cursor),
            Some(GameMode::GameOver) => Screen::Over,
        };
        match screen {
            Screen::NoScreen => none,
            Screen::Menu => {
                let restart = self.handle_menu(ev, hit.row);
                RouteOutcome { pan: None, restart, save: false, load: false }
            },
            Screen::Explore => {
                let clockless = self.turn_clock.is_none();
                let save = clockless && match ev {
                    GameInput::Command(GameCommand::QuickSave) => true,
                    _ => false,
                };
                let load = clockless && match ev {
                    GameInput::Command(GameCommand::QuickLoad) => true,
                    _ => false,
                };
                if clockless && self.explore_input_ok() {
                    let pan = self.handle_explore(ev, view_pans, hit.world);
                    RouteOutcome { pan, restart: false, save, load }
                } else {
                    RouteOutcome { pan: None, restart: false, save, load }
                }
            },
            Screen::Talk => {
                self.handle_dialogue(ev, hit.choice);
                none
            },
            Screen::Bag => {
                self.handle_inventory(ev, hit.row);
                none
            },
            Screen::Journal => {
                self.handle_journal(ev, hit.row);
                none
            },
            Screen::Transfer => {
                self.handle_item_transfer(ev);
                none
            },
            Screen::Encounter => {
                match (ev, hit.world) {
                    (GameInput::Raw(InputEvent::MouseDown { button: MouseButton::Left, .. }), Some(wp)) => {
                        self.encounter_primary_click(wp);
                        return none;
                    },
                    (GameInput::Raw(InputEvent::MouseDown { button: MouseButton::Right, .. }), Some(wp)) => {
                        self.encounter_secondary_click(wp);
                        return none;
                    },
                    _ => {},
                }
                if self.encounter_input_ok() {
                    let pan = self.handle_combat(ev, view_pans);
                    RouteOutcome { pan, restart: false, save: false, load: false }
                } else {
                    none
                }
            },
            Screen::Targeting(spell, cursor) => {
                let fits = match ev {
                    GameInput::Command(GameCommand::StepNorth) => cursor.y > i32::MIN,
                    GameInput::Command(GameCommand::StepSouth) => cursor.y < i32::MAX,
                    GameInput::Command(GameCommand::StepWest) => cursor.x > i32::MIN,
                    GameInput::Command(GameCommand::StepEast) => cursor.x < i32::MAX,
                    _ => true,
                };
                if fits {
                    self.handle_spell_targeting(ev, spell, cursor, hit.world);
                }
                none
            },
            Screen::Over => {
                self.handle_game_over(ev);
                none
            },
        }
    }

    /// Advances the world a tick (see [`world_ticked`]).
    fn tick_world(&mut self)
        requires
            old(self).wf(),
        ensures
            final(self).wf(),
            world_ticked(old(self), final(self)),
    {
        let encounter_ok = match self.modes.current() {
            Some(GameMode::Combat(c)) => c.ap_remaining.len() == c.initiative.len(),
            _ => true,
        };
        if encounter_ok {
            step_npc_combat_ai(self);
        }
        let ghost g1 = *self;
        self.step_npc_exploration_ai();
        let ghost g2 = *self;
        self.step_player_walk();
        let ghost g3 = *self;
        self.pump_pending_player_action();
        let ghost g4 = *self;
        self.pump_pending_forced_dialogue();
        let ghost g5 = *self;
        let top: Option<CombatState> = match self.modes.current() {
            Some(GameMode::Combat(c)) => Some(c.duplicate()),
            _ => None,
        };
        match &top {
            Some(c) => self.tick_effects(Some(c)),
            None => self.tick_effects(None),
        }
        let ghost g6 = *self;
        assert(effects_ticked(&g5, &g6, top_encounter(&g5)));
        if self.fireball_cooldown_ticks > 0 {
            self.fireball_cooldown_ticks = self.fireball_cooldown_ticks - 1;
        }
        if self.surface_tick == u64::MAX {
            self.surface_tick = 0;
        } else {
            self.surface_tick = self.surface_tick + 1;
        }
        assert(combat_ai_ticked(old(self), &g1));
    }

    /// One frame: routes each event of `input`, then advances the world a tick (see
    /// [`stepped`]); returns what each event asks of the shell.
    pub fn step(&mut self, input: &InputBatch) -> (outs: Vec<RouteOutcome>)
        requires
            old(self).wf(),
        ensures
            final(self).wf(),
            stepped(old(self), final(self), input.events@, input.view_pans, outs@),
    {
        let ghost mut gs: Seq<Game<H>> = seq![*self];
        let mut outs: Vec<RouteOutcome> = Vec::new();
        let mut i: usize = 0;
        while i < input.events.len()
            invariant
                self.wf(),
                i <= input.events@.len(),
                gs[0] == *old(self),
                gs.last() == *self,
                events_routed(gs, input.events@, input.view_pans, outs@, i as int),
            decreases input.events@.len() - i,
        {
            let (ev, hit) = input.events[i];
            let ghost g0 = *self;
            let out = match self.resolve_game_input(&ev) {
                Some(gi) => self.route(gi, hit, input.view_pans),
                None => RouteOutcome { pan: None, restart: false, save: false, load: false },
            };
            assert(event_routed(&g0, &*self, ev, hit, input.view_pans, out));
            let ghost gs0 = gs;
            outs.push(out);
            proof {
                gs = gs.push(*self);
                assert forall|j: int| 0 <= j < i + 1 implies #[trigger] event_routed(
                    &gs[j],
                    &gs[j + 1],
                    input.events@[j].0,
                    input.events@[j].1,
                    input.view_pans,
                    outs@[j],
                ) by {
                    if j < i {
                        assert(event_routed(&gs0[j], &gs0[j + 1], input.events@[j].0, input.events@[j].1, input.view_pans, outs@[j]));
                    }
                }
            }
            i = i + 1;
        }
        let ghost gl = *self;
        self.tick_world();
        assert(events_routed(gs, input.events@, input.view_pans, outs@, input.events@.len() as int));
        outs
    }
}

} // verus!
