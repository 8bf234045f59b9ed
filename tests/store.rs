use std::collections::HashSet;

use todo_store::store::TaskStore;
use todo_store::task::{StoreError, Task};

fn consistent(t: &Task) -> bool {
    t.completed == t.completed_at.is_some()
        && t.completed_at.map_or(true, |c| t.created_at <= c)
}

#[test]
fn end_to_end_scenario() {
    let mut store = TaskStore::new();
    let a = store.create("a".to_string()).unwrap();
    let b = store.create("b".to_string()).unwrap();
    assert_ne!(a.identifier, b.identifier);

    let listed = store.list();
    assert_eq!(listed.len(), 2);
    assert_eq!(listed[0].identifier, a.identifier);
    assert_eq!(listed[0].title, "a");
    assert!(!listed[0].completed);
    assert_eq!(listed[1].identifier, b.identifier);
    assert_eq!(listed[1].title, "b");
    assert!(!listed[1].completed);

    let on = store.toggle(&a.identifier).unwrap();
    assert_eq!(on.identifier, a.identifier);
    assert_eq!(on.title, "a");
    assert!(on.completed);
    assert!(on.completed_at.is_some());

    let off = store.toggle(&a.identifier).unwrap();
    assert_eq!(off.identifier, a.identifier);
    assert_eq!(off.title, "a");
    assert!(!off.completed);
    assert_eq!(off.completed_at, None);

    assert_eq!(store.toggle("nonexistent").unwrap_err(), StoreError::NotFound);
}

#[test]
fn read_your_write_buy_milk() {
    let mut store = TaskStore::new();
    store.create("first".to_string()).unwrap();
    let t = store.create("buy milk".to_string()).unwrap();
    let listed = store.list();
    let same: Vec<&Task> = listed.iter().filter(|x| x.identifier == t.identifier).collect();
    assert_eq!(same.len(), 1);
    assert_eq!(same[0].title, "buy milk");
    assert!(!same[0].completed);
    assert_eq!(same[0].completed_at, None);
    assert_eq!(same[0].created_at, t.created_at);
}

#[test]
fn created_identifiers_are_distinct() {
    let mut store = TaskStore::new();
    let mut seen = HashSet::new();
    for k in 0..300 {
        let t = store.create(format!("task {}", k)).unwrap();
        assert_eq!(t.identifier.len(), 36);
        assert!(seen.insert(t.identifier.clone()));
    }
    assert_eq!(store.len(), 300);
}

#[test]
fn created_task_is_open_and_recent() {
    let mut store = TaskStore::new();
    let t = store.create(String::new()).unwrap();
    assert_eq!(t.title, "");
    assert!(!t.completed);
    assert_eq!(t.completed_at, None);
    // 2020-01-01T00:00:00Z in milliseconds
    assert!(t.created_at > 1_577_836_800_000);
}

#[test]
fn toggle_twice_restores_open_task() {
    let mut store = TaskStore::new();
    let t = store.insert_new("u1".to_string(), "a".to_string(), 100).unwrap();
    let first = store.toggle_at("u1", 250).unwrap();
    assert!(first.completed);
    assert_eq!(first.completed_at, Some(250));
    let second = store.toggle_at("u1", 300).unwrap();
    assert!(!second.completed);
    assert_eq!(second.completed_at, None);
    assert_eq!(second.identifier, t.identifier);
    assert_eq!(second.title, t.title);
    assert_eq!(second.created_at, 100);
}

#[test]
fn every_returned_task_is_consistent() {
    let mut store = TaskStore::new();
    let mut ids = Vec::new();
    for k in 0..5 {
        let t = store.create(format!("t{}", k)).unwrap();
        assert!(consistent(&t));
        ids.push(t.identifier);
    }
    for (k, id) in ids.iter().enumerate() {
        for _ in 0..=k {
            let t = store.toggle(id).unwrap();
            assert!(consistent(&t));
        }
    }
    for t in store.list() {
        assert!(consistent(&t));
    }
}

#[test]
fn toggle_unknown_leaves_store_unchanged() {
    let mut store = TaskStore::new();
    store.insert_new("u1".to_string(), "a".to_string(), 1).unwrap();
    store.insert_new("u2".to_string(), "b".to_string(), 2).unwrap();
    store.toggle_at("u2", 5).unwrap();
    let before = store.list();
    for bad in ["nonexistent", "", "u", "u12", "U1", "not a uuid at all"] {
        assert_eq!(store.toggle_at(bad, 9).unwrap_err(), StoreError::NotFound);
    }
    let after = store.list();
    assert_eq!(before.len(), after.len());
    for (x, y) in before.iter().zip(after.iter()) {
        assert_eq!(x.identifier, y.identifier);
        assert_eq!(x.title, y.title);
        assert_eq!(x.completed, y.completed);
        assert_eq!(x.created_at, y.created_at);
        assert_eq!(x.completed_at, y.completed_at);
    }
}

#[test]
fn many_toggles_apply_by_parity() {
    let mut store = TaskStore::new();
    let target = store.create("target".to_string()).unwrap();
    let other = store.create("other".to_string()).unwrap();
    for k in 1..=301u32 {
        let t = store.toggle(&target.identifier).unwrap();
        assert_eq!(t.completed, k % 2 == 1);
    }
    let listed = store.list();
    assert!(listed[0].completed);
    assert!(listed[0].completed_at.is_some());
    assert!(!listed[1].completed);
    assert_eq!(listed[1].identifier, other.identifier);

    store.toggle(&target.identifier).unwrap();
    assert!(!store.list()[0].completed);
}

#[test]
fn list_keeps_insertion_order() {
    let mut store = TaskStore::new();
    assert!(store.list().is_empty());
    store.insert_new("c".to_string(), "third".to_string(), 3).unwrap();
    store.insert_new("a".to_string(), "first".to_string(), 1).unwrap();
    store.insert_new("b".to_string(), "second".to_string(), 2).unwrap();
    let ids: Vec<String> = store.list().into_iter().map(|t| t.identifier).collect();
    assert_eq!(ids, vec!["c".to_string(), "a".to_string(), "b".to_string()]);
}

#[test]
fn insert_refuses_held_identifier() {
    let mut store = TaskStore::new();
    store.insert_new("dup".to_string(), "one".to_string(), 1).unwrap();
    let r = store.insert_new("dup".to_string(), "two".to_string(), 2);
    assert_eq!(r.unwrap_err(), StoreError::DuplicateIdentifier);
    let listed = store.list();
    assert_eq!(listed.len(), 1);
    assert_eq!(listed[0].title, "one");
}

#[test]
fn position_finds_by_identifier() {
    let mut store = TaskStore::new();
    store.insert_new("x".to_string(), "a".to_string(), 1).unwrap();
    store.insert_new("y".to_string(), "b".to_string(), 1).unwrap();
    assert_eq!(store.position("y"), Some(1));
    assert_eq!(store.position("x"), Some(0));
    assert_eq!(store.position("z"), None);
}

#[test]
fn create_on_empty_store_succeeds() {
    let mut store = TaskStore::new();
    let t = store.create("a".to_string()).unwrap();
    assert_eq!(t.title, "a");
    assert!(!t.completed);
    assert_eq!(t.completed_at, None);
    assert_eq!(store.len(), 1);
    assert_eq!(store.list()[0].identifier, t.identifier);
}

#[test]
fn created_task_survives_later_operations() {
    let mut store = TaskStore::new();
    let t = store.create("buy milk".to_string()).unwrap();
    let other = store.create("other".to_string()).unwrap();
    store.toggle(&other.identifier).unwrap();
    store.create("third".to_string()).unwrap();
    let listed = store.list();
    let same: Vec<&Task> = listed.iter().filter(|x| x.identifier == t.identifier).collect();
    assert_eq!(same.len(), 1);
    assert_eq!(same[0].title, "buy milk");
    assert!(!same[0].completed);
    assert_eq!(same[0].completed_at, None);
    assert_eq!(same[0].created_at, t.created_at);
}
