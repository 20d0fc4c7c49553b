//! An in-process store for the two record kinds of a knowledge graph, entities and
//! relationships: insertion-ordered and append-only.
mod graph;
mod record;
mod store;

pub use graph::{
    after_graph_appends, entity_appends, lemma_stores_independent, relationship_appends,
    GraphAppend, KnowledgeGraph,
};
pub use record::{Entity, Record, Relationship};
pub use store::{
    after_appends, lemma_after_appends_is_concat, lemma_append_then_list, lemma_duplicate_ids_kept,
    lemma_no_loss, lemma_order_kept, Store,
};
