//! NPC action intents, shared by exploration and turn-based time.

use vstd::prelude::*;

use crate::combat::AttackStyle;
use crate::entity::{EntityId, GridPos};
use crate::step_pacing::spec_explore_cooldown;

verus! {

/// How urgently an NPC is moving on the exploration grid.
#[derive(Clone, Copy, Debug, PartialEq, Eq, Structural)]
pub enum StepPace {
    /// Flee, chase, investigate.
    Urgent,
    /// Roam or patrol.
    Leisurely,
}

#[derive(Clone, Copy, Debug, PartialEq, Eq, Structural)]
pub enum NpcAction {
    /// Urgent one-cell move.
    Step(GridPos),
    /// Leisurely one-cell move (roam, patrol).
    RoamStep(GridPos),
    Attack { target: EntityId, style: AttackStyle },
    Pass,
    Idle,
}

impl NpcAction {
    pub open spec fn spec_step_target(self) -> Option<GridPos> {
        match self {
            NpcAction::Step(t) => Some(t),
            NpcAction::RoamStep(t) => Some(t),
            _ => None,
        }
    }

    pub fn step(target: GridPos) -> (a: NpcAction)
        ensures
            a == NpcAction::Step(target),
    {
        NpcAction::Step(target)
    }

    pub fn roam_step(target: GridPos) -> (a: NpcAction)
        ensures
            a == NpcAction::RoamStep(target),
    {
        NpcAction::RoamStep(target)
    }

    pub fn step_target(self) -> (t: Option<GridPos>)
        ensures
            t == self.spec_step_target(),
    {
        match self {
            NpcAction::Step(t) => Some(t),
            NpcAction::RoamStep(t) => Some(t),
            _ => None,
        }
    }

    pub fn step_pace(self) -> (p: Option<StepPace>)
        ensures
            p == (match self {
                NpcAction::Step(_) => Some(StepPace::Urgent),
                NpcAction::RoamStep(_) => Some(StepPace::Leisurely),
                _ => None,
            }),
    {
        match self {
            NpcAction::Step(_) => Some(StepPace::Urgent),
            NpcAction::RoamStep(_) => Some(StepPace::Leisurely),
            _ => None,
        }
    }

    pub fn is_leisurely_step(self) -> (b: bool)
        ensures
            b == (self is RoamStep),
    {
        matches!(self, NpcAction::RoamStep(_))
    }

    /// Exploration tick cooldown after a successful step; `None` for non-move actions.
    pub fn explore_step_cooldown(self, speed: u16, dx: i32, dy: i32) -> (c: Option<u16>)
        ensures
            c == (if self.spec_step_target() is Some {
                Some(spec_explore_cooldown(self is RoamStep, speed, dx, dy) as u16)
            } else {
                None
            }),
    {
        if self.step_target().is_none() {
            return None;
        }
        Some(crate::step_pacing::explore_step_cooldown(self.is_leisurely_step(), speed, dx, dy))
    }
}

} // verus!
