use std::collections::HashMap;

use casper_node_logic::hash32::Hash32;
use casper_node_logic::query::{DeadEnd, Query, QueryKey, QueryStep, QueryValue, ReadOutcome};
use casper_node_logic::tracking_copy::{TrackingCopy, TrackingCopyQueryResult};

fn key(name: &str) -> QueryKey {
    QueryKey { bytes: name.as_bytes().to_vec(), text: format!("Key({})", name), is_named_key: false, entity_addr: None }
}

fn named_key_key(name: &str) -> QueryKey {
    QueryKey { is_named_key: true, ..key(name) }
}

fn entity_key(name: &str, addr: u8) -> QueryKey {
    QueryKey { entity_addr: Some(Hash32::new([addr; 32])), ..key(name) }
}

/// Runs a query against a state of values (the value handed out, and what
/// the query reads of it), computing an entity's named keys as `nk:<name>`.
fn run(state: &HashMap<Vec<u8>, (u32, QueryValue)>, base: QueryKey, path: &[&str], max_depth: u64) -> TrackingCopyQueryResult<u32> {
    let mut query = Query::new(base, path.iter().map(|s| s.to_string()).collect());
    let mut step: QueryStep<u32> = query.begin(max_depth);
    loop {
        step = match step {
            QueryStep::Done(result) => return result,
            QueryStep::ReadCurrentKey => {
                let read = state.get(&query.current_key.bytes).map(|(value, view)| ReadOutcome {
                    value: Ok(*value),
                    view: view.clone(),
                    proof: query.current_key.bytes.clone(),
                });
                query.after_read(max_depth, read)
            }
            QueryStep::NamedKeyOf { entity: _, name } => {
                query.after_named_key(max_depth, Ok(named_key_key(&format!("nk:{}", name))))
            }
        }
    }
}

fn state() -> HashMap<Vec<u8>, (u32, QueryValue)> {
    let mut s = HashMap::new();
    s.insert(b"acct".to_vec(), (1, QueryValue::Account { named_keys: vec![("purse".to_string(), key("p")), ("loop".to_string(), key("self"))] }));
    s.insert(b"p".to_vec(), (2, QueryValue::Key(Some(key("q")))));
    s.insert(b"q".to_vec(), (3, QueryValue::OtherValue("CLValue(U512)".to_string())));
    s.insert(b"self".to_vec(), (4, QueryValue::Key(Some(key("self")))));
    s.insert(b"ent".to_vec(), (5, QueryValue::AddressableEntity));
    s.insert(b"nk:main".to_vec(), (6, QueryValue::NamedKey { name: Some("main".to_string()), key: Some(key("wasm")) }));
    s.insert(b"wasm".to_vec(), (7, QueryValue::DeadEnd(DeadEnd::ByteCode)));
    s
}

#[test]
fn empty_path_reads_the_base_key() {
    match run(&state(), key("acct"), &[], 10) {
        TrackingCopyQueryResult::Success { value, proofs } => {
            assert_eq!(value, 1);
            assert_eq!(proofs, vec![b"acct".to_vec()]);
        }
        other => panic!("unexpected {:?}", other),
    }
}

#[test]
fn a_name_leads_through_a_key_value() {
    // "purse" leads to p, whose value is a key to q: the path is used up at p.
    match run(&state(), key("acct"), &["purse"], 10) {
        TrackingCopyQueryResult::Success { value, proofs } => {
            assert_eq!(value, 2);
            assert_eq!(proofs.len(), 2);
        }
        other => panic!("unexpected {:?}", other),
    }
}

#[test]
fn missing_name_and_base_key_are_reported_with_the_path() {
    assert_eq!(
        run(&state(), key("acct"), &["nothing"], 10),
        TrackingCopyQueryResult::ValueNotFound("Name nothing not found in Account at path: Key(acct)/nothing".to_string())
    );
    assert_eq!(
        run(&state(), key("gone"), &[], 10),
        TrackingCopyQueryResult::ValueNotFound("Failed to find base key at path: Key(gone)".to_string())
    );
}

#[test]
fn circles_and_depth_are_caught() {
    assert_eq!(
        run(&state(), key("acct"), &["loop", "more"], 10),
        TrackingCopyQueryResult::CircularReference(
            "Key(self) has formed a circular reference at path: Key(acct)/loop".to_string()
        )
    );
    assert_eq!(run(&state(), key("acct"), &["purse", "x"], 1), TrackingCopyQueryResult::DepthLimit { depth: 1 });
}

#[test]
fn entities_go_through_their_named_keys() {
    match run(&state(), entity_key("ent", 9), &["main"], 10) {
        TrackingCopyQueryResult::Success { value, proofs } => {
            assert_eq!(value, 7);
            assert_eq!(proofs, vec![b"ent".to_vec(), b"nk:main".to_vec(), b"wasm".to_vec()]);
        }
        other => panic!("unexpected {:?}", other),
    }
    assert_eq!(
        run(&state(), entity_key("ent", 9), &["main", "x"], 10),
        TrackingCopyQueryResult::ValueNotFound("ByteCode value found. at path: Key(ent)/main".to_string())
    );
    assert_eq!(
        run(&state(), key("ent"), &["main"], 10),
        TrackingCopyQueryResult::ValueNotFound("Invalid base key at path: Key(ent)/main".to_string())
    );
}

#[test]
fn other_values_end_the_query() {
    assert_eq!(
        run(&state(), key("q"), &["x"], 10),
        TrackingCopyQueryResult::ValueNotFound(
            "Query cannot continue as CLValue(U512) is not an account, contract nor key to such.  Value found at path: Key(q)"
                .to_string()
        )
    );
}

#[test]
fn query_from_a_tracking_copy_ignores_its_cache() {
    let mut state: HashMap<Vec<u8>, (u32, QueryValue)> = HashMap::new();
    state.insert(b"base".to_vec(), (7, QueryValue::Key(Some(key("next")))));
    state.insert(b"next".to_vec(), (9, QueryValue::Key(None)));
    let mut written = TrackingCopy::new(2, false);
    written.write(b"base".to_vec(), vec![1, 2, 3]);
    written.prune(b"next".to_vec(), b"next".to_vec());
    let fresh = TrackingCopy::new(2, false);
    let (qa, limit_a) = written.query(key("base"), vec![]);
    let (qb, limit_b) = fresh.query(key("base"), vec![]);
    assert_eq!(limit_a, 2);
    assert_eq!(limit_a, limit_b);
    assert_eq!(qa.current_key, qb.current_key);
    assert_eq!(qa.depth, 0);
    assert_eq!(run(&state, key("base"), &[], limit_a), TrackingCopyQueryResult::Success { value: 7, proofs: vec![b"base".to_vec()] });
    // With no depth left, the query stops before reading.
    let (mut q, _) = written.query(key("base"), vec![]);
    let step: QueryStep<u32> = q.begin(0);
    match step {
        QueryStep::Done(result) => assert_eq!(result, TrackingCopyQueryResult::DepthLimit { depth: 0 }),
        _ => panic!("expected the depth limit"),
    }
}
