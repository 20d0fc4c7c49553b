use vstd::prelude::*;

verus! {

#[verifier::external_type_specification]
#[verifier::external_body]
pub struct ExJsonValue(serde_json::Value);

/// Relies on serde_json's derived `Clone` for `Value`: the copy is the same JSON value.
pub assume_specification[ <serde_json::Value as Clone>::clone ](v: &serde_json::Value) -> (r:
    serde_json::Value)
    ensures
        r == *v,
;

/// A kind of record that a store can hold: it can be copied out exactly.
pub trait Record: Sized {
    /// An exact copy of the record, every field unchanged.
    fn duplicate(&self) -> (r: Self)
        ensures
            r == *self,
    ;
}

/// A node of the knowledge graph. Nothing about it is validated: `id` need not be
/// unique, and `metadata` is an arbitrary JSON value that the store never inspects.
#[derive(Debug)]
pub struct Entity {
    pub id: String,
    pub entity_type: String,
    pub name: String,
    pub metadata: serde_json::Value,
}

/// An edge of the knowledge graph. The two ids refer to entities by convention only:
/// a reference to an entity that was never stored is a valid relationship.
#[derive(Debug)]
pub struct Relationship {
    pub from_id: String,
    pub to_id: String,
    pub relationship_type: String,
}

impl Entity {
    pub fn new(id: String, entity_type: String, name: String, metadata: serde_json::Value) -> (r:
        Entity)
        ensures
            r.id == id,
            r.entity_type == entity_type,
            r.name == name,
            r.metadata == metadata,
    {
        Entity { id, entity_type, name, metadata }
    }
}

impl Relationship {
    pub fn new(from_id: String, to_id: String, relationship_type: String) -> (r: Relationship)
        ensures
            r.from_id == from_id,
            r.to_id == to_id,
            r.relationship_type == relationship_type,
    {
        Relationship { from_id, to_id, relationship_type }
    }
}

impl Record for Entity {
    fn duplicate(&self) -> (r: Self) {
        Entity {
            id: self.id.clone(),
            entity_type: self.entity_type.clone(),
            name: self.name.clone(),
            metadata: self.metadata.clone(),
        }
    }
}

impl Record for Relationship {
    fn duplicate(&self) -> (r: Self) {
        Relationship {
            from_id: self.from_id.clone(),
            to_id: self.to_id.clone(),
            relationship_type: self.relationship_type.clone(),
        }
    }
}

} // verus!
