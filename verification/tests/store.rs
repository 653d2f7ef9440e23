use ezcurl::fields::FieldStore;

fn store_with_keys(keys: &[&str]) -> FieldStore {
    let mut store = FieldStore::new();
    for (i, key) in keys.iter().enumerate() {
        store.add(false);
        store.update(i, Some(key.to_string()), Some(format!("v{}", i)));
    }
    store
}

#[test]
fn add_appends_empty_field() {
    let mut store = FieldStore::new();
    assert_eq!(store.len(), 0);
    assert!(store.is_empty());
    store.add(false);
    assert_eq!(store.len(), 1);
    assert!(!store.is_empty());
    assert_eq!(store.get(0).key, "");
    assert_eq!(store.get(0).value, "");
    assert!(!store.get(0).multiline);
    store.add(true);
    assert_eq!(store.len(), 2);
    assert!(store.get(1).multiline);
    assert!(!store.get(0).multiline);
}

#[test]
fn update_edits_in_place() {
    let mut store = store_with_keys(&["a", "b"]);
    store.update(1, Some("key".to_string()), None);
    assert_eq!(store.get(1).key, "key");
    assert_eq!(store.get(1).value, "v1");
    store.update(1, None, Some("val".to_string()));
    assert_eq!(store.get(1).key, "key");
    assert_eq!(store.get(1).value, "val");
    assert_eq!(store.get(0).key, "a");
    assert_eq!(store.get(0).value, "v0");
}

#[test]
fn remove_keeps_relative_order() {
    let mut store = store_with_keys(&["a", "b", "c", "d"]);
    store.remove(1);
    assert_eq!(store.len(), 3);
    assert_eq!(store.get(0).key, "a");
    assert_eq!(store.get(1).key, "c");
    assert_eq!(store.get(2).key, "d");
}

#[test]
fn remove_out_of_range_is_noop() {
    let mut store = store_with_keys(&["a", "b"]);
    store.remove(2);
    assert_eq!(store.len(), 2);
    assert_eq!(store.get(0).key, "a");
    assert_eq!(store.get(1).key, "b");
}

#[test]
fn length_tracks_adds_minus_valid_removes() {
    let mut store = FieldStore::new();
    let mut adds: usize = 0;
    let mut valid_removes: usize = 0;
    for _ in 0..5 {
        store.add(false);
        adds += 1;
    }
    store.remove(0);
    valid_removes += 1;
    store.remove(3);
    valid_removes += 1;
    store.remove(9); // out of range: not counted
    store.add(true);
    adds += 1;
    assert_eq!(store.len(), adds - valid_removes);
}

#[test]
fn remove_pending_none_is_noop() {
    let mut store = store_with_keys(&["a", "b"]);
    store.remove_pending(None);
    assert_eq!(store.len(), 2);
    assert_eq!(store.get(0).key, "a");
    assert_eq!(store.get(1).key, "b");
}

#[test]
fn remove_pending_removes_exactly_one() {
    let mut store = store_with_keys(&["a", "b", "c"]);
    store.remove_pending(Some(1));
    assert_eq!(store.len(), 2);
    assert_eq!(store.get(0).key, "a");
    assert_eq!(store.get(1).key, "c");
}
