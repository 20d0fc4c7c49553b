use knowledge_graph::{Entity, KnowledgeGraph, Relationship, Store};
use serde_json::Value;

fn entity(id: &str, entity_type: &str, name: &str, metadata: &str) -> Entity {
    let metadata: Value = serde_json::from_str(metadata).unwrap();
    Entity::new(id.to_string(), entity_type.to_string(), name.to_string(), metadata)
}

fn same_entity(a: &Entity, b: &Entity) -> bool {
    a.id == b.id && a.entity_type == b.entity_type && a.name == b.name && a.metadata == b.metadata
}

#[test]
fn fresh_store_is_empty() {
    let store: Store<Entity> = Store::new();
    assert_eq!(store.len(), 0);
    assert!(store.enumerate().is_empty());
    let graph = KnowledgeGraph::new();
    assert!(graph.entities().is_empty());
    assert!(graph.relationships().is_empty());
}

#[test]
fn appended_entity_is_listed_once_unchanged() {
    let mut store: Store<Entity> = Store::new();
    store.append(entity("e1", "person", "Ada", r#"{"tags":["a",1,null],"n":{"x":true}}"#));
    let listed = store.enumerate();
    assert_eq!(listed.len(), 1);
    let expected = entity("e1", "person", "Ada", r#"{"n":{"x":true},"tags":["a",1,null]}"#);
    assert!(same_entity(&listed[0], &expected));
    assert_eq!(store.len(), 1);
}

#[test]
fn entities_listed_in_append_order() {
    let mut store: Store<Entity> = Store::new();
    store.append(entity("b", "t", "second-named", "null"));
    store.append(entity("a", "t", "first-named", "null"));
    store.append(entity("c", "t", "third", "3"));
    let ids: Vec<String> = store.enumerate().into_iter().map(|e| e.id).collect();
    assert_eq!(ids, vec!["b".to_string(), "a".to_string(), "c".to_string()]);
}

#[test]
fn duplicate_ids_are_both_kept() {
    let mut graph = KnowledgeGraph::new();
    graph.append_entity(entity("same", "person", "One", "{}"));
    graph.append_entity(entity("same", "person", "Two", "{}"));
    let listed = graph.entities();
    assert_eq!(listed.len(), 2);
    assert_eq!(listed[0].name, "One");
    assert_eq!(listed[1].name, "Two");
    assert_eq!(listed[0].id, listed[1].id);
}

#[test]
fn concrete_scenario() {
    let mut graph = KnowledgeGraph::new();
    graph.append_entity(entity("e1", "person", "Ada", "{}"));
    graph.append_entity(entity("e2", "document", "Paper", r#"{"year":1843}"#));
    let listed = graph.entities();
    assert_eq!(listed.len(), 2);
    assert!(same_entity(&listed[0], &entity("e1", "person", "Ada", "{}")));
    assert!(same_entity(&listed[1], &entity("e2", "document", "Paper", r#"{"year":1843}"#)));
    assert_eq!(listed[1].metadata["year"], Value::from(1843));
    assert_eq!(serde_json::to_string(&listed[1].metadata).unwrap(), r#"{"year":1843}"#);

    graph.append_relationship(Relationship::new(
        "e1".to_string(),
        "e2".to_string(),
        "authored".to_string(),
    ));
    let rels = graph.relationships();
    assert_eq!(rels.len(), 1);
    assert_eq!(rels[0].from_id, "e1");
    assert_eq!(rels[0].to_id, "e2");
    assert_eq!(rels[0].relationship_type, "authored");
    assert_eq!(graph.entities().len(), 2);
}

#[test]
fn dangling_relationship_is_accepted() {
    let mut graph = KnowledgeGraph::new();
    graph.append_relationship(Relationship::new(
        "nobody".to_string(),
        "nothing".to_string(),
        "knows".to_string(),
    ));
    let rels = graph.relationships();
    assert_eq!(rels.len(), 1);
    assert_eq!(rels[0].from_id, "nobody");
    assert!(graph.entities().is_empty());
}

#[test]
fn stores_do_not_interfere() {
    let mut graph = KnowledgeGraph::new();
    graph.append_entity(entity("e1", "person", "Ada", "{}"));
    graph.append_relationship(Relationship::new("e1".to_string(), "e2".to_string(), "r1".to_string()));
    graph.append_entity(entity("e2", "person", "Bob", "{}"));
    graph.append_relationship(Relationship::new("e2".to_string(), "e1".to_string(), "r2".to_string()));
    let ents: Vec<String> = graph.entities().into_iter().map(|e| e.id).collect();
    let rels: Vec<String> =
        graph.relationships().into_iter().map(|r| r.relationship_type).collect();
    assert_eq!(ents, vec!["e1".to_string(), "e2".to_string()]);
    assert_eq!(rels, vec!["r1".to_string(), "r2".to_string()]);
}

#[test]
fn relationship_store_keeps_order() {
    let mut store: Store<Relationship> = Store::new();
    assert!(store.enumerate().is_empty());
    store.append(Relationship::new("a".to_string(), "b".to_string(), "x".to_string()));
    store.append(Relationship::new("c".to_string(), "d".to_string(), "y".to_string()));
    let listed = store.enumerate();
    assert_eq!(listed.len(), 2);
    assert_eq!(listed[0].relationship_type, "x");
    assert_eq!(listed[1].relationship_type, "y");
}

#[test]
fn distinct_appends_in_any_order_each_kept_once() {
    let n: usize = 16;
    let mut store: Store<Entity> = Store::new();
    // the order in which the lock happens to be granted: a rearrangement of the inputs
    let granted: Vec<usize> = (0..n).map(|i| (i * 7) % n).collect();
    for k in &granted {
        store.append(entity(&format!("e{}", k), "node", &format!("name{}", k), &k.to_string()));
    }
    let listed = store.enumerate();
    assert_eq!(listed.len(), n);
    let mut seen = vec![0usize; n];
    for (pos, e) in listed.iter().enumerate() {
        let k: usize = e.id[1..].parse().unwrap();
        assert_eq!(k, granted[pos]);
        assert_eq!(e.name, format!("name{}", k));
        assert_eq!(e.metadata, Value::from(k as u64));
        seen[k] += 1;
    }
    assert!(seen.iter().all(|c| *c == 1));
}
