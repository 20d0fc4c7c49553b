use vstd::prelude::*;

use crate::record::{Entity, Relationship};
use crate::store::Store;

verus! {

/// The whole graph: one store of entities and one of relationships, independent of
/// each other. Its view is the pair of the two stores' contents.
pub struct KnowledgeGraph {
    entities: Store<Entity>,
    relationships: Store<Relationship>,
}

impl View for KnowledgeGraph {
    type V = (Seq<Entity>, Seq<Relationship>);

    closed spec fn view(&self) -> (Seq<Entity>, Seq<Relationship>) {
        (self.entities@, self.relationships@)
    }
}

/// One append to the graph, to one of its two stores.
pub enum GraphAppend {
    Entity(Entity),
    Relationship(Relationship),
}

/// The entities among `events`, in order.
pub open spec fn entity_appends(events: Seq<GraphAppend>) -> Seq<Entity>
    decreases events.len(),
{
    if events.len() == 0 {
        Seq::empty()
    } else {
        let rest = entity_appends(events.drop_last());
        match events.last() {
            GraphAppend::Entity(e) => rest.push(e),
            GraphAppend::Relationship(_) => rest,
        }
    }
}

/// The relationships among `events`, in order.
pub open spec fn relationship_appends(events: Seq<GraphAppend>) -> Seq<Relationship>
    decreases events.len(),
{
    if events.len() == 0 {
        Seq::empty()
    } else {
        let rest = relationship_appends(events.drop_last());
        match events.last() {
            GraphAppend::Entity(_) => rest,
            GraphAppend::Relationship(r) => rest.push(r),
        }
    }
}

/// The two stores' contents after `events`, carried out one by one, each as an append
/// to its own store, from stores that held `ents` and `rels`.
pub open spec fn after_graph_appends(
    ents: Seq<Entity>,
    rels: Seq<Relationship>,
    events: Seq<GraphAppend>,
) -> (Seq<Entity>, Seq<Relationship>)
    decreases events.len(),
{
    if events.len() == 0 {
        (ents, rels)
    } else {
        let (e, r) = after_graph_appends(ents, rels, events.drop_last());
        match events.last() {
            GraphAppend::Entity(x) => (e.push(x), r),
            GraphAppend::Relationship(x) => (e, r.push(x)),
        }
    }
}

/// However appends of entities and of relationships interleave, each store ends with
/// what it held followed by exactly its own appends, in their order: appends to one
/// store neither lose nor alter the other's records.
pub proof fn lemma_stores_independent(
    ents: Seq<Entity>,
    rels: Seq<Relationship>,
    events: Seq<GraphAppend>,
)
    ensures
        after_graph_appends(ents, rels, events).0 == ents + entity_appends(events),
        after_graph_appends(ents, rels, events).1 == rels + relationship_appends(events),
    decreases events.len(),
{
    if events.len() == 0 {
        assert(ents + entity_appends(events) =~= ents);
        assert(rels + relationship_appends(events) =~= rels);
    } else {
        let prev = events.drop_last();
        lemma_stores_independent(ents, rels, prev);
        match events.last() {
            GraphAppend::Entity(x) => {
                assert(ents + entity_appends(events) =~= (ents + entity_appends(prev)).push(x));
            },
            GraphAppend::Relationship(x) => {
                assert(rels + relationship_appends(events) =~= (rels + relationship_appends(
                    prev,
                )).push(x));
            },
        }
    }
}

impl KnowledgeGraph {
    /// A graph whose two stores are empty.
    pub fn new() -> (g: KnowledgeGraph)
        ensures
            g@.0 == Seq::<Entity>::empty(),
            g@.1 == Seq::<Relationship>::empty(),
    {
        KnowledgeGraph { entities: Store::new(), relationships: Store::new() }
    }

    /// Appends `entity`, as given, after every entity held. Never fails.
    pub fn append_entity(&mut self, entity: Entity)
        ensures
            final(self)@.0 == old(self)@.0.push(entity),
            final(self)@.1 == old(self)@.1,
    {
        self.entities.append(entity);
    }

    /// Every entity held, in the order of appending.
    pub fn entities(&self) -> (r: Vec<Entity>)
        ensures
            r@ == self@.0,
    {
        self.entities.enumerate()
    }

    /// Appends `relationship`, as given, after every relationship held. Never fails,
    /// and does not check that the entities it names exist.
    pub fn append_relationship(&mut self, relationship: Relationship)
        ensures
            final(self)@.0 == old(self)@.0,
            final(self)@.1 == old(self)@.1.push(relationship),
    {
        self.relationships.append(relationship);
    }

    /// Every relationship held, in the order of appending.
    pub fn relationships(&self) -> (r: Vec<Relationship>)
        ensures
            r@ == self@.1,
    {
        self.relationships.enumerate()
    }
}

} // verus!
