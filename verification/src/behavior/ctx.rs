//! The slice of the world that behavior code reads and writes.

use vstd::prelude::*;

use crate::content::{ContentPack, EntityBlueprint, Relation};
use crate::entity::{EntityArena, EntityId};
use crate::world::MapGrid;
use super::relation::{blueprint_of, spec_blueprint_for, spec_relation, BlueprintRelationResolver, RelationResolver};

verus! {

/// Inputs needed to decide NPC exploration and combat actions.
pub struct BehaviorCtx<'a> {
    pub map: &'a MapGrid,
    pub entities: &'a mut EntityArena,
    pub content: &'a ContentPack,
    pub rng: &'a mut u64,
    pub player: Option<EntityId>,
}

/// Player id used for relations (slot 0 when no player is designated).
pub open spec fn relation_player(player: Option<EntityId>) -> EntityId {
    match player {
        Some(p) => p,
        None => EntityId(0),
    }
}

/// `other` is hostile toward the designated player.
pub open spec fn spec_hostile_to_player(content: &ContentPack, entities: &EntityArena, player: Option<EntityId>, other: EntityId) -> bool {
    match player {
        Some(p) => spec_relation(content, entities, p, p, other) == Relation::Hostile,
        None => false,
    }
}

impl<'a> BehaviorCtx<'a> {
    /// Relation between `a` and `b` in this context.
    pub open spec fn spec_rel(&self, a: EntityId, b: EntityId) -> Relation {
        spec_relation(self.content, self.entities, relation_player(self.player), a, b)
    }

    /// Blueprint of `actor` in this context.
    pub open spec fn spec_bp(&self, actor: EntityId) -> Option<EntityBlueprint> {
        spec_blueprint_for(self.content, self.entities, actor)
    }

    /// `other` is hostile toward this context's player.
    pub open spec fn spec_hostile(&self, other: EntityId) -> bool {
        spec_hostile_to_player(self.content, self.entities, self.player, other)
    }

    pub fn player_id(&self) -> (p: Option<EntityId>)
        ensures
            p == self.player,
    {
        self.player
    }

    pub fn blueprint_for(&self, actor: EntityId) -> (r: Option<&'a EntityBlueprint>)
        ensures
            r matches Some(b) ==> self.spec_bp(actor) == Some(*b),
            r is None <==> self.spec_bp(actor) is None,
    {
        blueprint_of(self.content, &*self.entities, actor)
    }

    pub fn relation(&self, a: EntityId, b: EntityId) -> (r: Relation)
        ensures
            r == self.spec_rel(a, b),
    {
        let player = match self.player {
            Some(p) => p,
            None => EntityId(0),
        };
        let resolver = BlueprintRelationResolver { player, content: self.content, entities: &*self.entities };
        resolver.relation(a, b)
    }

    pub fn is_hostile_to_player(&self, other: EntityId) -> (b: bool)
        ensures
            b == self.spec_hostile(other),
    {
        let player = match self.player_id() {
            Some(p) => p,
            None => { return false; },
        };
        matches!(self.relation(player, other), Relation::Hostile)
    }
}

} // verus!
