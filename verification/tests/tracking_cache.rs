use casper_node_logic::tracking_cache::TrackingCopyCache;

fn k(s: &str) -> Vec<u8> {
    s.as_bytes().to_vec()
}

#[test]
fn reads_are_evicted_least_recently_used_first() {
    let mut cache = TrackingCopyCache::new(10);
    cache.insert_read(k("a"), k("1"), 4);
    cache.insert_read(k("b"), k("2"), 4);
    // Refreshing "a" makes "b" the least recently used.
    assert_eq!(cache.get(b"a"), Some(k("1")));
    cache.insert_read(k("c"), k("3"), 4);
    assert_eq!(cache.get(b"b"), None);
    assert_eq!(cache.get(b"a"), Some(k("1")));
    assert_eq!(cache.get(b"c"), Some(k("3")));
}

#[test]
fn an_entry_over_the_budget_empties_the_reads() {
    let mut cache = TrackingCopyCache::new(3);
    cache.insert_read(k("a"), k("1"), 2);
    cache.insert_read(k("big"), k("2"), 5);
    assert_eq!(cache.get(b"a"), None);
    assert_eq!(cache.get(b"big"), None);
}

#[test]
fn writes_win_over_reads_and_are_not_evicted() {
    let mut cache = TrackingCopyCache::new(1);
    cache.insert_read(k("a"), k("old"), 1);
    cache.insert_write(k("a"), k("new"));
    assert_eq!(cache.get(b"a"), Some(k("new")));
    cache.insert_read(k("b"), k("x"), 5);
    assert_eq!(cache.get(b"a"), Some(k("new")));
}

#[test]
fn pruned_keys_read_as_absent_until_written() {
    let mut cache = TrackingCopyCache::new(100);
    cache.insert_write(k("a"), k("1"));
    cache.insert_prune(k("a"));
    assert!(cache.is_pruned(b"a"));
    assert_eq!(cache.get(b"a"), None);
    cache.insert_write(k("a"), k("2"));
    assert!(!cache.is_pruned(b"a"));
    assert_eq!(cache.get(b"a"), Some(k("2")));
}

#[test]
fn written_keys_by_prefix() {
    let mut cache = TrackingCopyCache::new(100);
    cache.insert_write(vec![1, 2, 3], k("x"));
    cache.insert_write(vec![1, 9], k("y"));
    cache.insert_write(vec![2, 2], k("z"));
    cache.insert_read(vec![1, 2, 4], k("r"), 1);
    let mut found = cache.get_muts_cached_by_byte_prefix(&[1]);
    found.sort();
    assert_eq!(found, vec![vec![1, 2, 3], vec![1, 9]]);
    assert!(cache.get_muts_cached_by_byte_prefix(&[3]).is_empty());
    assert_eq!(cache.get_muts_cached_by_byte_prefix(&[]).len(), 3);
}

#[test]
fn reading_a_cached_key_again_replaces_its_size() {
    let mut cache = TrackingCopyCache::new(8);
    cache.insert_read(k("a"), k("1"), 4);
    cache.insert_read(k("b"), k("2"), 4);
    // "a" is read again with the same size: the cache stays at its budget and
    // nothing is evicted.
    cache.insert_read(k("a"), k("1"), 4);
    cache.insert_read(k("a"), k("1"), 4);
    assert_eq!(cache.get(&k("a")), Some(k("1")));
    assert_eq!(cache.get(&k("b")), Some(k("2")));
}
