//! Social relation lookup between entities.

use vstd::prelude::*;

use crate::content::{ContentPack, Disposition, EntityBlueprint, Relation};
use crate::entity::{EntityArena, EntityId};

verus! {

/// Blueprint kind of the actor in slot `id`.
pub open spec fn spec_kind_of(entities: &EntityArena, id: EntityId) -> Option<Seq<char>> {
    if (id.0 as int) < entities.npc_kind@.len() {
        match entities.npc_kind@[id.0 as int] {
            Some(k) => Some(k@),
            None => None,
        }
    } else {
        None
    }
}

/// Blueprint of the actor in slot `id`.
pub open spec fn spec_blueprint_for(content: &ContentPack, entities: &EntityArena, id: EntityId) -> Option<EntityBlueprint> {
    match spec_kind_of(entities, id) {
        Some(k) => content.spec_blueprint(k),
        None => None,
    }
}

pub open spec fn spec_relation_from_disposition(d: Disposition) -> Relation {
    match d {
        Disposition::Friendly => Relation::Friendly,
        Disposition::Neutral => Relation::Neutral,
        Disposition::Hostile => Relation::Hostile,
    }
}

/// Relation of `other` toward the player: the player is allied with itself, others take
/// their blueprint's disposition (neutral without one).
pub open spec fn spec_relation_to_player(content: &ContentPack, entities: &EntityArena, player: EntityId, other: EntityId) -> Relation {
    if other == player {
        Relation::Allied
    } else {
        match spec_blueprint_for(content, entities, other) {
            Some(bp) => spec_relation_from_disposition(bp.disposition_to_player),
            None => Relation::Neutral,
        }
    }
}

/// Relation between `a` and `b`: allied with itself, blueprint disposition when one of
/// them is the player, neutral otherwise.
pub open spec fn spec_relation(content: &ContentPack, entities: &EntityArena, player: EntityId, a: EntityId, b: EntityId) -> Relation {
    if a == b {
        Relation::Allied
    } else if a == player {
        spec_relation_to_player(content, entities, player, b)
    } else if b == player {
        spec_relation_to_player(content, entities, player, a)
    } else {
        Relation::Neutral
    }
}

/// Blueprint kind of the actor in slot `id`.
pub fn kind_of<'b>(entities: &'b EntityArena, id: EntityId) -> (r: Option<&'b str>)
    ensures
        r matches Some(k) ==> spec_kind_of(entities, id) == Some(k@),
        r is None <==> spec_kind_of(entities, id) is None,
{
    let i = id.0 as usize;
    if i < entities.npc_kind.len() {
        match &entities.npc_kind[i] {
            Some(k) => Some(k.as_str()),
            None => None,
        }
    } else {
        None
    }
}

/// Blueprint of the actor in slot `id`.
pub fn blueprint_of<'b>(content: &'b ContentPack, entities: &EntityArena, id: EntityId) -> (r: Option<&'b EntityBlueprint>)
    ensures
        r matches Some(b) ==> spec_blueprint_for(content, entities, id) == Some(*b),
        r is None <==> spec_blueprint_for(content, entities, id) is None,
{
    match kind_of(entities, id) {
        Some(k) => content.blueprint(k),
        None => None,
    }
}

fn relation_from_disposition(disposition: Disposition) -> (r: Relation)
    ensures
        r == spec_relation_from_disposition(disposition),
{
    match disposition {
        Disposition::Friendly => Relation::Friendly,
        Disposition::Neutral => Relation::Neutral,
        Disposition::Hostile => Relation::Hostile,
    }
}

/// Resolves the relation between two entities.
pub trait RelationResolver {
    spec fn spec_relation(&self, a: EntityId, b: EntityId) -> Relation;

    fn relation(&self, a: EntityId, b: EntityId) -> (r: Relation)
        ensures
            r == self.spec_relation(a, b),
    ;
}

/// Default resolver: blueprint `disposition_to_player` toward the player, other pairs
/// neutral.
pub struct BlueprintRelationResolver<'a> {
    pub player: EntityId,
    pub content: &'a ContentPack,
    pub entities: &'a EntityArena,
}

impl<'a> BlueprintRelationResolver<'a> {
    fn relation_to_player(&self, other: EntityId) -> (r: Relation)
        ensures
            r == spec_relation_to_player(self.content, self.entities, self.player, other),
    {
        if other.0 == self.player.0 {
            return Relation::Allied;
        }
        match blueprint_of(self.content, self.entities, other) {
            Some(bp) => relation_from_disposition(bp.disposition_to_player),
            None => Relation::Neutral,
        }
    }
}

impl<'a> RelationResolver for BlueprintRelationResolver<'a> {
    open spec fn spec_relation(&self, a: EntityId, b: EntityId) -> Relation {
        spec_relation(self.content, self.entities, self.player, a, b)
    }

    fn relation(&self, a: EntityId, b: EntityId) -> (r: Relation) {
        if a.0 == b.0 {
            return Relation::Allied;
        }
        if a.0 == self.player.0 {
            return self.relation_to_player(b);
        }
        if b.0 == self.player.0 {
            return self.relation_to_player(a);
        }
        Relation::Neutral
    }
}

/// `other` is hostile toward `player` according to `resolver`.
pub fn is_hostile_to_player<R: RelationResolver>(resolver: &R, player: EntityId, other: EntityId) -> (b: bool)
    ensures
        b == (resolver.spec_relation(player, other) == Relation::Hostile),
{
    matches!(resolver.relation(player, other), Relation::Hostile)
}

/// Every entity is allied with itself.
pub proof fn lemma_relation_self(content: &ContentPack, entities: &EntityArena, player: EntityId, a: EntityId)
    ensures
        spec_relation(content, entities, player, a, a) == Relation::Allied,
{
}

/// The relation does not depend on the order of the pair.
pub proof fn lemma_relation_symmetric(content: &ContentPack, entities: &EntityArena, player: EntityId, a: EntityId, b: EntityId)
    ensures
        spec_relation(content, entities, player, a, b) == spec_relation(content, entities, player, b, a),
{
}

} // verus!
