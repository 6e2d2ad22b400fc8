use todo_store::store::{StoreError, TodoStore};
use todo_store::todo::UpdateTodo;

fn is_uuid_shape(s: &str) -> bool {
    let chars: Vec<char> = s.chars().collect();
    if chars.len() != 36 {
        return false;
    }
    chars.iter().enumerate().all(|(i, c)| {
        if i == 8 || i == 13 || i == 18 || i == 23 {
            *c == '-'
        } else {
            c.is_ascii_digit() || ('a'..='f').contains(c)
        }
    })
}

#[test]
fn create_buy_milk_then_list() {
    let mut store = TodoStore::new();
    let t = store.create("Buy milk".to_string()).unwrap();
    assert_eq!(t.title, "Buy milk");
    assert!(!t.completed);
    assert!(!t.id.is_empty());
    let all = store.list();
    assert_eq!(all.len(), 1);
    assert_eq!(all[0].id, t.id);
    assert_eq!(all[0].title, "Buy milk");
    assert!(!all[0].completed);
}

#[test]
fn created_id_has_uuid_shape() {
    let mut store = TodoStore::new();
    let t = store.create("x".to_string()).unwrap();
    assert!(is_uuid_shape(&t.id), "{}", t.id);
}

#[test]
fn two_creates_have_distinct_ids() {
    let mut store = TodoStore::new();
    let a = store.create("a".to_string()).unwrap();
    let b = store.create("b".to_string()).unwrap();
    assert_ne!(a.id, b.id);
    assert_eq!(store.len(), 2);
}

#[test]
fn update_completed_keeps_title() {
    let mut store = TodoStore::new();
    let t = store.create("Buy milk".to_string()).unwrap();
    let u = UpdateTodo { title: None, completed: Some(true) };
    let r = store.update(&t.id, u).unwrap();
    assert_eq!(r.id, t.id);
    assert_eq!(r.title, "Buy milk");
    assert!(r.completed);
    let all = store.list();
    assert_eq!(all.len(), 1);
    assert_eq!(all[0].title, "Buy milk");
    assert!(all[0].completed);
}

#[test]
fn update_title_keeps_completed() {
    let mut store = TodoStore::new();
    let t = store.create("old".to_string()).unwrap();
    let r = store
        .update(&t.id, UpdateTodo { title: Some("new".to_string()), completed: None })
        .unwrap();
    assert_eq!(r.title, "new");
    assert!(!r.completed);
}

#[test]
fn update_both_fields() {
    let mut store = TodoStore::new();
    let t = store.create("old".to_string()).unwrap();
    let r = store
        .update(&t.id, UpdateTodo { title: Some("new".to_string()), completed: Some(true) })
        .unwrap();
    assert_eq!(r.title, "new");
    assert!(r.completed);
    let r2 = store
        .update(&t.id, UpdateTodo { title: None, completed: Some(false) })
        .unwrap();
    assert_eq!(r2.title, "new");
    assert!(!r2.completed);
}

#[test]
fn update_unknown_id_is_not_found() {
    let mut store = TodoStore::new();
    let t = store.create("keep".to_string()).unwrap();
    let before = store.list();
    let r = store.update(
        &"no-such-id".to_string(),
        UpdateTodo { title: Some("changed".to_string()), completed: Some(true) },
    );
    assert_eq!(r.unwrap_err(), StoreError::NotFound);
    let after = store.list();
    assert_eq!(before.len(), after.len());
    assert_eq!(after[0].id, t.id);
    assert_eq!(after[0].title, "keep");
    assert!(!after[0].completed);
}

#[test]
fn delete_twice_is_not_found() {
    let mut store = TodoStore::new();
    let t = store.create("gone".to_string()).unwrap();
    let other = store.create("stays".to_string()).unwrap();
    assert_eq!(store.delete(&t.id), Ok(()));
    assert!(!store.contains(&t.id));
    assert_eq!(store.delete(&t.id), Err(StoreError::NotFound));
    let all = store.list();
    assert_eq!(all.len(), 1);
    assert_eq!(all[0].id, other.id);
}

#[test]
fn delete_unknown_is_not_found() {
    let mut store = TodoStore::new();
    assert_eq!(store.delete(&"missing".to_string()), Err(StoreError::NotFound));
    assert_eq!(store.len(), 0);
}

#[test]
fn list_empty_store_is_empty() {
    let store = TodoStore::new();
    assert!(store.list().is_empty());
}

#[test]
fn hundred_creates_all_listed() {
    let mut store = TodoStore::new();
    let mut ids: Vec<String> = Vec::new();
    for i in 0..100 {
        let t = store.create(format!("item {}", i)).unwrap();
        ids.push(t.id);
    }
    let all = store.list();
    assert_eq!(all.len(), 100);
    for (i, t) in all.iter().enumerate() {
        assert_eq!(t.id, ids[i]);
        for u in all.iter().skip(i + 1) {
            assert_ne!(t.id, u.id);
        }
    }
}

#[test]
fn insert_new_duplicate_id_is_refused() {
    let mut store = TodoStore::new();
    let t = store.insert_new("k1".to_string(), "first".to_string()).unwrap();
    assert_eq!(t.id, "k1");
    assert_eq!(t.title, "first");
    assert!(!t.completed);
    let r = store.insert_new("k1".to_string(), "second".to_string());
    assert_eq!(r.unwrap_err(), StoreError::DuplicateId);
    let all = store.list();
    assert_eq!(all.len(), 1);
    assert_eq!(all[0].title, "first");
}

#[test]
fn contains_reports_known_ids() {
    let mut store = TodoStore::new();
    store.insert_new("k1".to_string(), "t".to_string()).unwrap();
    assert!(store.contains(&"k1".to_string()));
    assert!(!store.contains(&"k2".to_string()));
}

#[test]
fn deleted_id_stays_gone_after_other_calls() {
    let mut store = TodoStore::new();
    let t = store.create("gone".to_string()).unwrap();
    let other = store.create("other".to_string()).unwrap();
    assert_eq!(store.delete(&t.id), Ok(()));
    let fresh = store.create("fresh".to_string()).unwrap();
    assert_ne!(fresh.id, t.id);
    store
        .update(&other.id, UpdateTodo { title: Some("renamed".to_string()), completed: Some(true) })
        .unwrap();
    assert_eq!(store.delete(&other.id), Ok(()));
    assert!(store.list().iter().all(|x| x.id != t.id));
    let r = store.update(&t.id, UpdateTodo { title: None, completed: Some(true) });
    assert_eq!(r.unwrap_err(), StoreError::NotFound);
    assert_eq!(store.delete(&t.id), Err(StoreError::NotFound));
    let all = store.list();
    assert_eq!(all.len(), 1);
    assert_eq!(all[0].id, fresh.id);
}
