//! The stack of game modes (menu, exploration, dialogue, combat, ...).

use vstd::prelude::*;

use crate::combat::CombatState;
use crate::entity::{EntityId, GridPos};
use super::spell::SpellKind;

verus! {

/// Which side of the transfer screen has the cursor.
#[derive(Clone, Copy, Debug, PartialEq, Eq, Structural)]
pub enum TransferFocus {
    Player,
    Container,
}

#[derive(Clone, Debug)]
pub enum GameMode {
    MainMenu { selected: usize },
    Exploration,
    Dialogue { npc_entity: EntityId, dialogue_id: String, node_index: usize, choice_cursor: usize },
    Inventory { cursor: usize },
    Journal { quest_cursor: usize },
    ItemTransfer { container: EntityId, focus: TransferFocus, cursor_player: usize, cursor_container: usize },
    Combat(CombatState),
    /// Aiming a spell at a world cell.
    SpellTargeting { spell: SpellKind, cursor: GridPos },
    /// Lethal defeat: the world is frozen until the player returns to the menu.
    GameOver,
}

/// Modes stacked on top of each other; the last one is active.
#[derive(Clone, Debug)]
pub struct GameModeStack {
    pub stack: Vec<GameMode>,
}

impl GameModeStack {
    pub fn new() -> (s: GameModeStack)
        ensures
            s.stack@.len() == 0,
    {
        GameModeStack { stack: Vec::new() }
    }

    pub fn push(&mut self, m: GameMode)
        ensures
            final(self).stack@ == old(self).stack@.push(m),
    {
        self.stack.push(m);
    }

    /// Removes and returns the active mode.
    pub fn pop(&mut self) -> (r: Option<GameMode>)
        ensures
            old(self).stack@.len() == 0 ==> r is None && final(self).stack@ == old(self).stack@,
            old(self).stack@.len() > 0 ==> r == Some(old(self).stack@.last())
                && final(self).stack@ == old(self).stack@.drop_last(),
    {
        self.stack.pop()
    }

    /// The active mode.
    pub fn current(&self) -> (r: Option<&GameMode>)
        ensures
            self.stack@.len() > 0 <==> r is Some,
            r matches Some(m) ==> *m == self.stack@.last(),
    {
        if self.stack.len() == 0 {
            None
        } else {
            Some(&self.stack[self.stack.len() - 1])
        }
    }

    /// Mutable access to the active mode.
    pub fn current_mut(&mut self) -> (r: Option<&mut GameMode>)
        ensures
            old(self).stack@.len() > 0 <==> r is Some,
            r is None ==> final(self).stack@ == old(self).stack@,
            r matches Some(m) ==> *m == old(self).stack@.last() && final(self).stack@ == old(self).stack@.update(
                old(self).stack@.len() - 1,
                *final(m),
            ),
    {
        let n = self.stack.len();
        if n == 0 {
            None
        } else {
            Some(&mut self.stack[n - 1])
        }
    }
}

impl Default for GameModeStack {
    fn default() -> (s: GameModeStack)
        ensures
            s.stack@.len() == 0,
    {
        GameModeStack::new()
    }
}

/// A mode pushed and popped again comes back out, and the stack is as before.
pub proof fn lemma_push_then_pop(s: Seq<GameMode>, m: GameMode)
    ensures
        s.push(m).len() > 0,
        s.push(m).last() == m,
        s.push(m).drop_last() == s,
{
    assert(s.push(m).drop_last() =~= s);
}

} // verus!
