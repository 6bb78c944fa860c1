//! Semantic player commands and key-to-command resolution per input layer.

use vstd::prelude::*;

use crate::input::{InputEvent, Key, KeyChord};
use crate::search::{first_match, lemma_first_match_is, lemma_first_match_none};
use super::modes::GameMode;

verus! {

#[derive(Clone, Copy, Debug, PartialEq, Eq, Hash, Structural)]
pub enum GameCommand {
    /// Close a screen, leave combat, or exit from the main menu.
    Back,
    /// Confirm a menu item, dialogue choice, transfer, or pass a combat turn.
    Confirm,
    ListPrev,
    ListNext,
    TransferFocusSide,
    InventoryUse,
    InventoryEquip,
    ToggleDebug,
    QuickSave,
    QuickLoad,
    OpenInventory,
    OpenJournal,
    StepNorth,
    StepSouth,
    StepWest,
    StepEast,
    CombatFlee,
    ToggleTurnBased,
    /// Enter fireball targeting.
    CastFireball,
}

/// Which binding table applies (the same key can differ by context).
#[derive(Clone, Copy, Debug, PartialEq, Eq, Hash, Structural)]
pub enum KeyMapLayer {
    /// Walking the overworld.
    Exploration,
    /// Combat grid plus pass, flee and journal shortcuts.
    Combat,
    /// Main menu, dialogue, game over: list navigation plus confirm.
    ConfirmModal,
    /// Inventory and journal: browse only.
    BrowseModal,
    /// Chest transfer: browse keys plus focus switch and confirm.
    ItemTransfer,
}

/// One binding table per layer.
#[derive(Clone, Copy, Debug)]
pub struct GameKeyMap {
    pub exploration: &'static [(KeyChord, GameCommand)],
    pub combat: &'static [(KeyChord, GameCommand)],
    pub confirm_modal: &'static [(KeyChord, GameCommand)],
    pub browse_modal: &'static [(KeyChord, GameCommand)],
    pub transfer: &'static [(KeyChord, GameCommand)],
}

/// Binding `j` of `t` is for `chord`.
pub open spec fn chord_pred(t: Seq<(KeyChord, GameCommand)>, chord: KeyChord) -> spec_fn(int) -> bool {
    |j: int| t[j].0 == chord
}

impl GameKeyMap {
    /// The table of `layer`.
    pub open spec fn table(&self, layer: KeyMapLayer) -> Seq<(KeyChord, GameCommand)> {
        match layer {
            KeyMapLayer::Exploration => self.exploration@,
            KeyMapLayer::Combat => self.combat@,
            KeyMapLayer::ConfirmModal => self.confirm_modal@,
            KeyMapLayer::BrowseModal => self.browse_modal@,
            KeyMapLayer::ItemTransfer => self.transfer@,
        }
    }

    /// Command of the first binding of `chord` in `layer`'s table.
    pub open spec fn spec_resolve(&self, layer: KeyMapLayer, chord: KeyChord) -> Option<GameCommand> {
        let t = self.table(layer);
        match first_match(t.len() as int, chord_pred(t, chord)) {
            Some(j) => Some(t[j].1),
            None => None,
        }
    }

    pub fn new(
        exploration: &'static [(KeyChord, GameCommand)],
        combat: &'static [(KeyChord, GameCommand)],
        confirm_modal: &'static [(KeyChord, GameCommand)],
        browse_modal: &'static [(KeyChord, GameCommand)],
        transfer: &'static [(KeyChord, GameCommand)],
    ) -> (m: GameKeyMap)
        ensures
            m.exploration@ == exploration@,
            m.combat@ == combat@,
            m.confirm_modal@ == confirm_modal@,
            m.browse_modal@ == browse_modal@,
            m.transfer@ == transfer@,
    {
        GameKeyMap { exploration, combat, confirm_modal, browse_modal, transfer }
    }

    /// Command bound to `chord` in `layer` (the first binding wins).
    pub fn resolve(&self, layer: KeyMapLayer, chord: KeyChord) -> (r: Option<GameCommand>)
        ensures
            r == self.spec_resolve(layer, chord),
    {
        let table: &'static [(KeyChord, GameCommand)] = match layer {
            KeyMapLayer::Exploration => self.exploration,
            KeyMapLayer::Combat => self.combat,
            KeyMapLayer::ConfirmModal => self.confirm_modal,
            KeyMapLayer::BrowseModal => self.browse_modal,
            KeyMapLayer::ItemTransfer => self.transfer,
        };
        let ghost t = self.table(layer);
        let ghost p = chord_pred(t, chord);
        let mut i: usize = 0;
        while i < table.len()
            invariant
                i <= table@.len(),
                table@ == t,
                t == self.table(layer),
                p == chord_pred(t, chord),
                forall|j: int| 0 <= j < i ==> !#[trigger] p(j),
            decreases table@.len() - i,
        {
            if table[i].0 == chord {
                proof { lemma_first_match_is(t.len() as int, p, i as int); }
                return Some(table[i].1);
            }
            i = i + 1;
        }
        proof { lemma_first_match_none(t.len() as int, p); }
        None
    }
}

/// What a mode handler receives: a resolved command or an event passed through.
#[derive(Clone, Copy, Debug, PartialEq, Eq, Structural)]
pub enum GameInput {
    Command(GameCommand),
    /// Mouse and other non-key events, unchanged.
    Raw(InputEvent),
}

pub open spec fn spec_key_layer_for_mode(mode: Option<&GameMode>) -> KeyMapLayer {
    match mode {
        None => KeyMapLayer::ConfirmModal,
        Some(GameMode::Exploration) => KeyMapLayer::Exploration,
        Some(GameMode::Combat(_)) => KeyMapLayer::Combat,
        Some(GameMode::SpellTargeting { .. }) => KeyMapLayer::Exploration,
        Some(GameMode::ItemTransfer { .. }) => KeyMapLayer::ItemTransfer,
        Some(GameMode::MainMenu { .. }) => KeyMapLayer::ConfirmModal,
        Some(GameMode::Dialogue { .. }) => KeyMapLayer::ConfirmModal,
        Some(GameMode::GameOver) => KeyMapLayer::ConfirmModal,
        Some(GameMode::Inventory { .. }) => KeyMapLayer::BrowseModal,
        Some(GameMode::Journal { .. }) => KeyMapLayer::BrowseModal,
    }
}

/// Binding layer of the top mode (targeting reuses exploration navigation).
pub fn key_layer_for_mode(mode: Option<&GameMode>) -> (l: KeyMapLayer)
    ensures
        l == spec_key_layer_for_mode(mode),
{
    match mode {
        None => KeyMapLayer::ConfirmModal,
        Some(GameMode::Exploration) => KeyMapLayer::Exploration,
        Some(GameMode::Combat(_)) => KeyMapLayer::Combat,
        Some(GameMode::SpellTargeting { .. }) => KeyMapLayer::Exploration,
        Some(GameMode::ItemTransfer { .. }) => KeyMapLayer::ItemTransfer,
        Some(GameMode::MainMenu { .. }) => KeyMapLayer::ConfirmModal,
        Some(GameMode::Dialogue { .. }) => KeyMapLayer::ConfirmModal,
        Some(GameMode::GameOver) => KeyMapLayer::ConfirmModal,
        Some(GameMode::Inventory { .. }) => KeyMapLayer::BrowseModal,
        Some(GameMode::Journal { .. }) => KeyMapLayer::BrowseModal,
    }
}

/// `key` with no modifier.
pub open spec fn plain_chord(key: Key) -> KeyChord {
    KeyChord { key, ctrl: false, alt: false, shift: false }
}

/// Default bindings of the exploration layer, in lookup order.
pub open spec fn default_exploration_bindings() -> Seq<(KeyChord, GameCommand)> {
    seq![
        (plain_chord(Key::F(1)), GameCommand::ToggleDebug),
        (plain_chord(Key::F(5)), GameCommand::QuickSave),
        (plain_chord(Key::F(9)), GameCommand::QuickLoad),
        (plain_chord(Key::Char('i')), GameCommand::OpenInventory),
        (plain_chord(Key::Char('j')), GameCommand::OpenJournal),
        (plain_chord(Key::Char('w')), GameCommand::StepNorth),
        (plain_chord(Key::Up), GameCommand::StepNorth),
        (plain_chord(Key::Char('s')), GameCommand::StepSouth),
        (plain_chord(Key::Down), GameCommand::StepSouth),
        (plain_chord(Key::Char('a')), GameCommand::StepWest),
        (plain_chord(Key::Left), GameCommand::StepWest),
        (plain_chord(Key::Char('d')), GameCommand::StepEast),
        (plain_chord(Key::Right), GameCommand::StepEast),
        (plain_chord(Key::Char('t')), GameCommand::ToggleTurnBased),
        (plain_chord(Key::Char('z')), GameCommand::CastFireball),
        (plain_chord(Key::Char('e')), GameCommand::Confirm),
        (plain_chord(Key::Enter), GameCommand::Confirm),
    ]
}

/// Default bindings of the combat layer, in lookup order.
pub open spec fn default_combat_bindings() -> Seq<(KeyChord, GameCommand)> {
    seq![
        (plain_chord(Key::F(1)), GameCommand::ToggleDebug),
        (plain_chord(Key::F(5)), GameCommand::QuickSave),
        (plain_chord(Key::F(9)), GameCommand::QuickLoad),
        (plain_chord(Key::Char('i')), GameCommand::OpenInventory),
        (plain_chord(Key::Char('j')), GameCommand::OpenJournal),
        (plain_chord(Key::Char('w')), GameCommand::StepNorth),
        (plain_chord(Key::Up), GameCommand::StepNorth),
        (plain_chord(Key::Char('s')), GameCommand::StepSouth),
        (plain_chord(Key::Down), GameCommand::StepSouth),
        (plain_chord(Key::Char('a')), GameCommand::StepWest),
        (plain_chord(Key::Left), GameCommand::StepWest),
        (plain_chord(Key::Char('d')), GameCommand::StepEast),
        (plain_chord(Key::Right), GameCommand::StepEast),
        (plain_chord(Key::Enter), GameCommand::Confirm),
        (plain_chord(Key::Char(' ')), GameCommand::Confirm),
        (plain_chord(Key::Esc), GameCommand::Back),
        (plain_chord(Key::Char('q')), GameCommand::Back),
        (plain_chord(Key::Char('f')), GameCommand::CombatFlee),
        (plain_chord(Key::Char('t')), GameCommand::ToggleTurnBased),
        (plain_chord(Key::Char('z')), GameCommand::CastFireball),
        (plain_chord(Key::Tab), GameCommand::Confirm),
    ]
}

/// Default bindings of the confirm modal layer, in lookup order.
pub open spec fn default_confirm_modal_bindings() -> Seq<(KeyChord, GameCommand)> {
    seq![
        (plain_chord(Key::F(1)), GameCommand::ToggleDebug),
        (plain_chord(Key::Esc), GameCommand::Back),
        (plain_chord(Key::Char('q')), GameCommand::Back),
        (plain_chord(Key::Enter), GameCommand::Confirm),
        (plain_chord(Key::Char(' ')), GameCommand::Confirm),
        (plain_chord(Key::Up), GameCommand::ListPrev),
        (plain_chord(Key::Down), GameCommand::ListNext),
        (plain_chord(Key::PageUp), GameCommand::ListPrev),
        (plain_chord(Key::PageDown), GameCommand::ListNext),
        (plain_chord(Key::Char('k')), GameCommand::ListPrev),
        (plain_chord(Key::Char('j')), GameCommand::ListNext),
    ]
}

/// Default bindings of the browse modal layer, in lookup order.
pub open spec fn default_browse_modal_bindings() -> Seq<(KeyChord, GameCommand)> {
    seq![
        (plain_chord(Key::F(1)), GameCommand::ToggleDebug),
        (plain_chord(Key::Esc), GameCommand::Back),
        (plain_chord(Key::Char('q')), GameCommand::Back),
        (plain_chord(Key::Up), GameCommand::ListPrev),
        (plain_chord(Key::Down), GameCommand::ListNext),
        (plain_chord(Key::PageUp), GameCommand::ListPrev),
        (plain_chord(Key::PageDown), GameCommand::ListNext),
        (plain_chord(Key::Char('u')), GameCommand::InventoryUse),
        (plain_chord(Key::Char('e')), GameCommand::InventoryEquip),
        (plain_chord(Key::Char('k')), GameCommand::ListPrev),
        (plain_chord(Key::Char('j')), GameCommand::ListNext),
    ]
}

/// Default bindings of the transfer layer, in lookup order.
pub open spec fn default_transfer_bindings() -> Seq<(KeyChord, GameCommand)> {
    seq![
        (plain_chord(Key::F(1)), GameCommand::ToggleDebug),
        (plain_chord(Key::Esc), GameCommand::Back),
        (plain_chord(Key::Char('q')), GameCommand::Back),
        (plain_chord(Key::Enter), GameCommand::Confirm),
        (plain_chord(Key::Char(' ')), GameCommand::Confirm),
        (plain_chord(Key::Up), GameCommand::ListPrev),
        (plain_chord(Key::Down), GameCommand::ListNext),
        (plain_chord(Key::PageUp), GameCommand::ListPrev),
        (plain_chord(Key::PageDown), GameCommand::ListNext),
        (plain_chord(Key::Tab), GameCommand::TransferFocusSide),
        (plain_chord(Key::Char('u')), GameCommand::InventoryUse),
        (plain_chord(Key::Char('e')), GameCommand::InventoryEquip),
        (plain_chord(Key::Char('k')), GameCommand::ListPrev),
        (plain_chord(Key::Char('j')), GameCommand::ListNext),
        (plain_chord(Key::Char('h')), GameCommand::TransferFocusSide),
        (plain_chord(Key::Char('l')), GameCommand::TransferFocusSide),
    ]
}

/// Binding layer for the game: an overworld turn clock on exploration uses the combat
/// layer, otherwise the top mode's layer.
pub fn key_layer_for_game<H: crate::content::ContentRuntimeHooks>(game: &super::state::Game<H>) -> (l: KeyMapLayer)
    ensures
        l == if game.turn_clock is Some && game.modes.stack@.len() > 0 && game.modes.stack@.last() is Exploration {
            KeyMapLayer::Combat
        } else {
            spec_key_layer_for_mode(
                if game.modes.stack@.len() > 0 {
                    Some(&game.modes.stack@.last())
                } else {
                    None
                },
            )
        },
{
    let explore = match game.modes.current() {
        Some(GameMode::Exploration) => true,
        _ => false,
    };
    if game.turn_clock.is_some() && explore {
        return KeyMapLayer::Combat;
    }
    key_layer_for_mode(game.modes.current())
}

/// The default bindings.
pub fn default_game_key_map() -> (m: GameKeyMap)
    ensures
        m.exploration@ == default_exploration_bindings(),
        m.combat@ == default_combat_bindings(),
        m.confirm_modal@ == default_confirm_modal_bindings(),
        m.browse_modal@ == default_browse_modal_bindings(),
        m.transfer@ == default_transfer_bindings(),
{
    let exploration: &'static [(KeyChord, GameCommand)] = &[
        (KeyChord { key: Key::F(1), ctrl: false, alt: false, shift: false }, GameCommand::ToggleDebug),
        (KeyChord { key: Key::F(5), ctrl: false, alt: false, shift: false }, GameCommand::QuickSave),
        (KeyChord { key: Key::F(9), ctrl: false, alt: false, shift: false }, GameCommand::QuickLoad),
        (KeyChord { key: Key::Char('i'), ctrl: false, alt: false, shift: false }, GameCommand::OpenInventory),
        (KeyChord { key: Key::Char('j'), ctrl: false, alt: false, shift: false }, GameCommand::OpenJournal),
        (KeyChord { key: Key::Char('w'), ctrl: false, alt: false, shift: false }, GameCommand::StepNorth),
        (KeyChord { key: Key::Up, ctrl: false, alt: false, shift: false }, GameCommand::StepNorth),
        (KeyChord { key: Key::Char('s'), ctrl: false, alt: false, shift: false }, GameCommand::StepSouth),
        (KeyChord { key: Key::Down, ctrl: false, alt: false, shift: false }, GameCommand::StepSouth),
        (KeyChord { key: Key::Char('a'), ctrl: false, alt: false, shift: false }, GameCommand::StepWest),
        (KeyChord { key: Key::Left, ctrl: false, alt: false, shift: false }, GameCommand::StepWest),
        (KeyChord { key: Key::Char('d'), ctrl: false, alt: false, shift: false }, GameCommand::StepEast),
        (KeyChord { key: Key::Right, ctrl: false, alt: false, shift: false }, GameCommand::StepEast),
        (KeyChord { key: Key::Char('t'), ctrl: false, alt: false, shift: false }, GameCommand::ToggleTurnBased),
        (KeyChord { key: Key::Char('z'), ctrl: false, alt: false, shift: false }, GameCommand::CastFireball),
        (KeyChord { key: Key::Char('e'), ctrl: false, alt: false, shift: false }, GameCommand::Confirm),
        (KeyChord { key: Key::Enter, ctrl: false, alt: false, shift: false }, GameCommand::Confirm),
    ];
    let combat: &'static [(KeyChord, GameCommand)] = &[
        (KeyChord { key: Key::F(1), ctrl: false, alt: false, shift: false }, GameCommand::ToggleDebug),
        (KeyChord { key: Key::F(5), ctrl: false, alt: false, shift: false }, GameCommand::QuickSave),
        (KeyChord { key: Key::F(9), ctrl: false, alt: false, shift: false }, GameCommand::QuickLoad),
        (KeyChord { key: Key::Char('i'), ctrl: false, alt: false, shift: false }, GameCommand::OpenInventory),
        (KeyChord { key: Key::Char('j'), ctrl: false, alt: false, shift: false }, GameCommand::OpenJournal),
        (KeyChord { key: Key::Char('w'), ctrl: false, alt: false, shift: false }, GameCommand::StepNorth),
        (KeyChord { key: Key::Up, ctrl: false, alt: false, shift: false }, GameCommand::StepNorth),
        (KeyChord { key: Key::Char('s'), ctrl: false, alt: false, shift: false }, GameCommand::StepSouth),
        (KeyChord { key: Key::Down, ctrl: false, alt: false, shift: false }, GameCommand::StepSouth),
        (KeyChord { key: Key::Char('a'), ctrl: false, alt: false, shift: false }, GameCommand::StepWest),
        (KeyChord { key: Key::Left, ctrl: false, alt: false, shift: false }, GameCommand::StepWest),
        (KeyChord { key: Key::Char('d'), ctrl: false, alt: false, shift: false }, GameCommand::StepEast),
        (KeyChord { key: Key::Right, ctrl: false, alt: false, shift: false }, GameCommand::StepEast),
        (KeyChord { key: Key::Enter, ctrl: false, alt: false, shift: false }, GameCommand::Confirm),
        (KeyChord { key: Key::Char(' '), ctrl: false, alt: false, shift: false }, GameCommand::Confirm),
        (KeyChord { key: Key::Esc, ctrl: false, alt: false, shift: false }, GameCommand::Back),
        (KeyChord { key: Key::Char('q'), ctrl: false, alt: false, shift: false }, GameCommand::Back),
        (KeyChord { key: Key::Char('f'), ctrl: false, alt: false, shift: false }, GameCommand::CombatFlee),
        (KeyChord { key: Key::Char('t'), ctrl: false, alt: false, shift: false }, GameCommand::ToggleTurnBased),
        (KeyChord { key: Key::Char('z'), ctrl: false, alt: false, shift: false }, GameCommand::CastFireball),
        (KeyChord { key: Key::Tab, ctrl: false, alt: false, shift: false }, GameCommand::Confirm),
    ];
    let confirm_modal: &'static [(KeyChord, GameCommand)] = &[
        (KeyChord { key: Key::F(1), ctrl: false, alt: false, shift: false }, GameCommand::ToggleDebug),
        (KeyChord { key: Key::Esc, ctrl: false, alt: false, shift: false }, GameCommand::Back),
        (KeyChord { key: Key::Char('q'), ctrl: false, alt: false, shift: false }, GameCommand::Back),
        (KeyChord { key: Key::Enter, ctrl: false, alt: false, shift: false }, GameCommand::Confirm),
        (KeyChord { key: Key::Char(' '), ctrl: false, alt: false, shift: false }, GameCommand::Confirm),
        (KeyChord { key: Key::Up, ctrl: false, alt: false, shift: false }, GameCommand::ListPrev),
        (KeyChord { key: Key::Down, ctrl: false, alt: false, shift: false }, GameCommand::ListNext),
        (KeyChord { key: Key::PageUp, ctrl: false, alt: false, shift: false }, GameCommand::ListPrev),
        (KeyChord { key: Key::PageDown, ctrl: false, alt: false, shift: false }, GameCommand::ListNext),
        (KeyChord { key: Key::Char('k'), ctrl: false, alt: false, shift: false }, GameCommand::ListPrev),
        (KeyChord { key: Key::Char('j'), ctrl: false, alt: false, shift: false }, GameCommand::ListNext),
    ];
    let browse_modal: &'static [(KeyChord, GameCommand)] = &[
        (KeyChord { key: Key::F(1), ctrl: false, alt: false, shift: false }, GameCommand::ToggleDebug),
        (KeyChord { key: Key::Esc, ctrl: false, alt: false, shift: false }, GameCommand::Back),
        (KeyChord { key: Key::Char('q'), ctrl: false, alt: false, shift: false }, GameCommand::Back),
        (KeyChord { key: Key::Up, ctrl: false, alt: false, shift: false }, GameCommand::ListPrev),
        (KeyChord { key: Key::Down, ctrl: false, alt: false, shift: false }, GameCommand::ListNext),
        (KeyChord { key: Key::PageUp, ctrl: false, alt: false, shift: false }, GameCommand::ListPrev),
        (KeyChord { key: Key::PageDown, ctrl: false, alt: false, shift: false }, GameCommand::ListNext),
        (KeyChord { key: Key::Char('u'), ctrl: false, alt: false, shift: false }, GameCommand::InventoryUse),
        (KeyChord { key: Key::Char('e'), ctrl: false, alt: false, shift: false }, GameCommand::InventoryEquip),
        (KeyChord { key: Key::Char('k'), ctrl: false, alt: false, shift: false }, GameCommand::ListPrev),
        (KeyChord { key: Key::Char('j'), ctrl: false, alt: false, shift: false }, GameCommand::ListNext),
    ];
    let transfer: &'static [(KeyChord, GameCommand)] = &[
        (KeyChord { key: Key::F(1), ctrl: false, alt: false, shift: false }, GameCommand::ToggleDebug),
        (KeyChord { key: Key::Esc, ctrl: false, alt: false, shift: false }, GameCommand::Back),
        (KeyChord { key: Key::Char('q'), ctrl: false, alt: false, shift: false }, GameCommand::Back),
        (KeyChord { key: Key::Enter, ctrl: false, alt: false, shift: false }, GameCommand::Confirm),
        (KeyChord { key: Key::Char(' '), ctrl: false, alt: false, shift: false }, GameCommand::Confirm),
        (KeyChord { key: Key::Up, ctrl: false, alt: false, shift: false }, GameCommand::ListPrev),
        (KeyChord { key: Key::Down, ctrl: false, alt: false, shift: false }, GameCommand::ListNext),
        (KeyChord { key: Key::PageUp, ctrl: false, alt: false, shift: false }, GameCommand::ListPrev),
        (KeyChord { key: Key::PageDown, ctrl: false, alt: false, shift: false }, GameCommand::ListNext),
        (KeyChord { key: Key::Tab, ctrl: false, alt: false, shift: false }, GameCommand::TransferFocusSide),
        (KeyChord { key: Key::Char('u'), ctrl: false, alt: false, shift: false }, GameCommand::InventoryUse),
        (KeyChord { key: Key::Char('e'), ctrl: false, alt: false, shift: false }, GameCommand::InventoryEquip),
        (KeyChord { key: Key::Char('k'), ctrl: false, alt: false, shift: false }, GameCommand::ListPrev),
        (KeyChord { key: Key::Char('j'), ctrl: false, alt: false, shift: false }, GameCommand::ListNext),
        (KeyChord { key: Key::Char('h'), ctrl: false, alt: false, shift: false }, GameCommand::TransferFocusSide),
        (KeyChord { key: Key::Char('l'), ctrl: false, alt: false, shift: false }, GameCommand::TransferFocusSide),
    ];
    assert(exploration@ =~= default_exploration_bindings());
    assert(combat@ =~= default_combat_bindings());
    assert(confirm_modal@ =~= default_confirm_modal_bindings());
    assert(browse_modal@ =~= default_browse_modal_bindings());
    assert(transfer@ =~= default_transfer_bindings());
    GameKeyMap::new(exploration, combat, confirm_modal, browse_modal, transfer)
}

} // verus!
