use casper_node_logic::iterable_map::{ContextStore, IterableMap, IterableMapKey};

fn new_map(prefix: &str) -> IterableMap<u64, String> {
    IterableMap::<u64, String>::new(prefix.to_string())
}

fn values(map: &IterableMap<u64, String>, store: &ContextStore<String>) -> Vec<String> {
    map.entries(store).into_iter().map(|(_, v)| v).collect()
}

#[test]
fn insert_and_get() {
    let mut store = ContextStore::new();
    let mut map = new_map("test_map");

    assert_eq!(map.get(&store, &1), None);

    map.insert(&mut store, 1, "a".to_string());
    assert_eq!(map.get(&store, &1), Some("a".to_string()));

    map.insert(&mut store, 2, "b".to_string());
    assert_eq!(map.get(&store, &2), Some("b".to_string()));
}

#[test]
fn overwrite_existing_key() {
    let mut store = ContextStore::new();
    let mut map = new_map("test_map");

    assert_eq!(map.insert(&mut store, 1, "a".to_string()), None);
    assert_eq!(map.insert(&mut store, 1, "b".to_string()), Some("a".to_string()));
    assert_eq!(map.get(&store, &1), Some("b".to_string()));
}

#[test]
fn remove_head_entry() {
    let mut store = ContextStore::new();
    let mut map = new_map("test_map");

    map.insert(&mut store, 1, "a".to_string());
    map.insert(&mut store, 2, "b".to_string());

    assert_eq!(map.remove(&mut store, &2), Some("b".to_string()));
    assert_eq!(map.get(&store, &2), None);
    assert_eq!(map.get(&store, &1), Some("a".to_string()));
}

#[test]
fn remove_middle_entry() {
    let mut store = ContextStore::new();
    let mut map = new_map("test_map");

    map.insert(&mut store, 1, "a".to_string());
    map.insert(&mut store, 2, "b".to_string());
    map.insert(&mut store, 3, "c".to_string());

    assert_eq!(map.remove(&mut store, &2), Some("b".to_string()));
    assert_eq!(map.get(&store, &2), None);
    assert_eq!(map.get(&store, &1), Some("a".to_string()));
    assert_eq!(map.get(&store, &3), Some("c".to_string()));
}

#[test]
fn remove_nonexistent_key_does_nothing() {
    let mut store = ContextStore::new();
    let mut map = new_map("test_map");

    map.insert(&mut store, 1, "a".to_string());

    assert_eq!(map.remove(&mut store, &999), None);
    assert_eq!(map.get(&store, &1), Some("a".to_string()));
}

#[test]
fn iterates_all_entries_in_reverse_insertion_order() {
    let mut store = ContextStore::new();
    let mut map = new_map("test_map");

    map.insert(&mut store, 1, "a".to_string());
    map.insert(&mut store, 2, "b".to_string());
    map.insert(&mut store, 3, "c".to_string());

    let values: Vec<_> = values(&map, &store);
    assert_eq!(values, vec!["c".to_string(), "b".to_string(), "a".to_string(),]);
}

#[test]
fn iteration_skips_deleted_entries() {
    let mut store = ContextStore::new();
    let mut map = new_map("test_map");

    map.insert(&mut store, 1, "a".to_string());
    map.insert(&mut store, 2, "b".to_string());
    map.insert(&mut store, 3, "c".to_string());

    map.remove(&mut store, &2);

    let values: Vec<_> = values(&map, &store);
    assert_eq!(values, vec!["c".to_string(), "a".to_string(),]);
}

#[test]
fn empty_map_behaves_sanely() {
    let mut store = ContextStore::new();
    let mut map = new_map("test_map");

    assert_eq!(map.get(&store, &1), None);
    assert_eq!(map.remove(&mut store, &1), None);
    assert_eq!(map.entries(&store).len(), 0);
}

#[test]
fn separate_maps_do_not_conflict() {
    let mut store = ContextStore::new();
    let mut map1 = new_map("map1");
    let mut map2 = new_map("map2");

    map1.insert(&mut store, 1, "a".to_string());
    map2.insert(&mut store, 1, "b".to_string());

    assert_eq!(map1.get(&store, &1), Some("a".to_string()));
    assert_eq!(map2.get(&store, &1), Some("b".to_string()));
}

#[test]
fn insert_same_value_under_different_keys() {
    let mut store = ContextStore::new();
    let mut map = new_map("test_map");

    map.insert(&mut store, 1, "shared".to_string());
    map.insert(&mut store, 2, "shared".to_string());

    assert_eq!(map.get(&store, &1), Some("shared".to_string()));
    assert_eq!(map.get(&store, &2), Some("shared".to_string()));
}

#[test]
fn iterator_yields_hashed_keys() {
    let mut store = ContextStore::new();
    let mut map = new_map("test_map");
    map.insert(&mut store, 1, "a".to_string());
    map.insert(&mut store, 2, "b".to_string());
    let mut it = map.iter();
    assert_eq!(it.next(&store), Some((2u64.to_key_prefix(), "b".to_string())));
    assert_eq!(it.next(&store), Some((1u64.to_key_prefix(), "a".to_string())));
    assert_eq!(it.next(&store), None);
}

#[test]
fn key_prefix_is_fnv1a_of_le_bytes() {
    // FNV-1a 128 of the eight little-endian bytes of 1u64.
    let h = 1u64.to_key_prefix();
    assert_ne!(h, 2u64.to_key_prefix());
    let map = new_map("m");
    let key = map.create_prefix_from_hash(h);
    assert_eq!(&key[..2], b"m_");
    assert_eq!(&key[2..], &h.to_le_bytes());
}
