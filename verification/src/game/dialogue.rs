//! Which dialogue choices the player is offered.

use vstd::prelude::*;

use crate::content::{ContentRuntimeHooks, DialogueChoice, DialogueNode};
use crate::narrative::NarrativeState;
use super::state::Game;

verus! {

/// Indices, in order, of those among the first `k` choices whose requirements `n` meets.
pub open spec fn visible_choices(n: NarrativeState, choices: Seq<DialogueChoice>, k: int) -> Seq<usize>
    decreases k,
{
    if k <= 0 {
        Seq::empty()
    } else {
        let prev = visible_choices(n, choices, k - 1);
        if n.spec_requires_met(choices[k - 1].requires@) {
            prev.push((k - 1) as usize)
        } else {
            prev
        }
    }
}

impl<H: ContentRuntimeHooks> Game<H> {
    /// The choices of `node` on offer now: those whose requirements the narrative meets.
    pub fn dialogue_visible_choice_indices(&self, node: &DialogueNode) -> (out: Vec<usize>)
        ensures
            out@ == visible_choices(self.narrative, node.choices@, node.choices@.len() as int),
    {
        let mut out: Vec<usize> = Vec::new();
        let mut i: usize = 0;
        while i < node.choices.len()
            invariant
                i <= node.choices@.len(),
                out@ == visible_choices(self.narrative, node.choices@, i as int),
            decreases node.choices@.len() - i,
        {
            if self.narrative.requires_met(&node.choices[i].requires) {
                out.push(i);
            }
            i = i + 1;
        }
        out
    }
}

} // verus!
