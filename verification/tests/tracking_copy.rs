use casper_node_logic::execution_kind::EntityAddr;
use casper_node_logic::executor::{
    ExecuteWithProviderResult, GasUsage, GlobalStateError, InstallContractResult,
};
use casper_node_logic::hash32::Hash32;
use casper_node_logic::message_topics::{manage_message_topic, ApiError, MessageTopicsRequest, MessageTopicsResult};
use casper_node_logic::tracking_copy::{
    validate_query_merkle_proof, ProvenRead, ValidationError, AddResult, CLValueError, TrackingCopy, TrackingCopyError, TrackingCopyQueryResult, TransformKind,
};
use casper_node_logic::wasm_v2_request::WasmV2Result;

#[test]
fn query_results_become_results() {
    let ok: TrackingCopyQueryResult<u8> = TrackingCopyQueryResult::Success { value: 5, proofs: vec![vec![1]] };
    assert!(ok.is_success());
    assert_eq!(ok.into_result(), Ok(5));
    let root: TrackingCopyQueryResult<u8> = TrackingCopyQueryResult::RootNotFound;
    assert!(!root.is_success());
    assert_eq!(root.into_result(), Err(TrackingCopyError::Storage(GlobalStateError::RootNotFound)));
    let missing: TrackingCopyQueryResult<u8> = TrackingCopyQueryResult::ValueNotFound("no".to_string());
    assert_eq!(missing.into_result(), Err(TrackingCopyError::ValueNotFound("no".to_string())));
    let circle: TrackingCopyQueryResult<u8> = TrackingCopyQueryResult::CircularReference("loop".to_string());
    assert_eq!(circle.into_result(), Err(TrackingCopyError::CircularReference("loop".to_string())));
    let deep: TrackingCopyQueryResult<u8> = TrackingCopyQueryResult::DepthLimit { depth: 5 };
    assert_eq!(deep.into_result(), Err(TrackingCopyError::QueryDepthLimit { depth: 5 }));
}

#[test]
fn decode_errors_become_add_results() {
    assert_eq!(
        AddResult::from(CLValueError::Serialization("early end".to_string())),
        AddResult::Serialization("early end".to_string())
    );
    assert_eq!(
        AddResult::from(CLValueError::Type { expected: "U64".to_string(), found: "String".to_string() }),
        AddResult::TypeMismatch { expected: "U64".to_string(), found: "String".to_string() }
    );
}

#[test]
fn message_topics_request_keeps_its_fields() {
    let h = Hash32::new([3; 32]);
    let e = EntityAddr::SmartContract(Hash32::new([4; 32]));
    let request = MessageTopicsRequest::new(h, e);
    assert_eq!(request.state_hash(), h);
    assert_eq!(request.entity_addr(), e);
    let result = MessageTopicsResult::Success { message_topics: vec![("events".to_string(), h)] };
    assert_ne!(result, MessageTopicsResult::RootNotFound);
}

#[test]
fn wasm_v2_results() {
    let gas = GasUsage { gas_limit: 10, remaining_points: 3 };
    let install = WasmV2Result::Install(InstallContractResult {
        smart_contract_addr: Hash32::new([1; 32]),
        gas_usage: gas,
        effects: 7u8,
        post_state_hash: Hash32::new([2; 32]),
    });
    assert_eq!(install.smart_contract_addr(), Some(&Hash32::new([1; 32])));
    assert_eq!(install.post_state_hash(), Hash32::new([2; 32]));
    assert_eq!(install.state_root_hash(), Hash32::new([2; 32]));
    assert_eq!(*install.gas_usage(), gas);
    assert_eq!(*install.effects(), 7);
    let execute = WasmV2Result::Execute(ExecuteWithProviderResult {
        host_error: None,
        output: None,
        gas_usage: gas,
        effects: 8u8,
        post_state_hash: Hash32::new([5; 32]),
    });
    assert_eq!(execute.smart_contract_addr(), None);
    assert_eq!(execute.post_state_hash(), Hash32::new([5; 32]));
    assert_eq!(*execute.effects(), 8);
}

#[test]
fn tracking_copy_reads_through_its_cache_and_records_effects() {
    let mut tc = TrackingCopy::new(5, true);
    assert!(tc.enable_addressable_entity());
    let key = b"k".to_vec();
    // Not cached yet: the state is read.
    assert_eq!(tc.get_cached(&key), None);
    let got = tc.got_from_state(key.clone(), Ok(Some((b"v".to_vec(), 3)))).unwrap();
    assert_eq!(got, Some(b"v".to_vec()));
    tc.record_read(key.clone());
    // Now it is cached.
    assert_eq!(tc.get_cached(&key), Some(b"v".to_vec()));
    tc.write(key.clone(), b"w".to_vec());
    assert_eq!(tc.get_cached(&key), Some(b"w".to_vec()));
    tc.prune(key.clone(), b"K".to_vec());
    assert_eq!(tc.get_cached(&key), None);
    let kinds: Vec<TransformKind> = tc.effects.iter().map(|t| t.kind.clone()).collect();
    assert_eq!(kinds, vec![TransformKind::Identity, TransformKind::Write(b"w".to_vec()), TransformKind::Prune(b"K".to_vec())]);
}

#[test]
fn state_errors_and_absent_values() {
    let mut tc = TrackingCopy::new(5, false);
    assert_eq!(tc.got_from_state(b"x".to_vec(), Ok(None)), Ok(None));
    assert_eq!(
        tc.got_from_state(b"x".to_vec(), Err("io".to_string())),
        Err(TrackingCopyError::Storage(GlobalStateError::Other("io".to_string())))
    );
    assert!(tc.effects.is_empty());
}

#[test]
fn emitted_messages_write_three_values() {
    let mut tc = TrackingCopy::new(5, false);
    tc.emit_message(b"topic".to_vec(), b"summary".to_vec(), b"msg".to_vec(), b"body".to_vec(), b"count".to_vec(), b"1".to_vec(), b"m".to_vec());
    assert_eq!(tc.effects.len(), 3);
    assert_eq!(tc.effects[0].key, b"msg".to_vec());
    assert_eq!(tc.effects[1].key, b"topic".to_vec());
    assert_eq!(tc.effects[2].key, b"count".to_vec());
    assert_eq!(tc.messages, vec![b"m".to_vec()]);
    assert_eq!(tc.get_cached(b"count"), Some(b"1".to_vec()));
}

#[test]
fn keys_by_prefix_drop_pruned_and_add_written_keys() {
    let mut tc = TrackingCopy::new(5, false);
    tc.write(vec![1, 9], vec![0]);
    tc.write(vec![2, 9], vec![0]);
    tc.write(vec![1, 3], vec![0]);
    tc.prune(vec![1, 4], vec![1, 4]);
    let state = vec![vec![1, 3], vec![1, 4], vec![1, 5], vec![1, 5]];
    let mut keys = tc.get_keys_by_prefix(&[1], Ok(state)).unwrap();
    keys.sort();
    assert_eq!(keys, vec![vec![1, 3], vec![1, 5], vec![1, 9]]);
    assert_eq!(
        tc.get_keys_by_prefix(&[1], Err("trie broken".to_string())),
        Err(TrackingCopyError::Storage(GlobalStateError::Other("trie broken".to_string())))
    );
}

#[test]
fn keys_by_tag_use_the_tag_byte_as_prefix() {
    let mut tc = TrackingCopy::new(5, false);
    tc.write(vec![2, 1], vec![7]);
    tc.write(vec![3, 1], vec![7]);
    let mut keys = tc.get_keys(2, Ok(vec![vec![2, 5]])).unwrap();
    keys.sort();
    assert_eq!(keys, vec![vec![2, 1], vec![2, 5]]);
    assert_eq!(tc.get_keys(4, Ok(vec![])).unwrap(), Vec::<Vec<u8>>::new());
}

#[test]
fn written_key_stays_listed_after_a_prune() {
    let mut tc = TrackingCopy::new(5, false);
    tc.write(vec![6, 1], vec![1]);
    tc.prune(vec![6, 1], vec![6, 1]);
    tc.prune(vec![6, 2], vec![6, 2]);
    let keys = tc.get_keys_by_prefix(&[6], Ok(vec![vec![6, 1], vec![6, 2]])).unwrap();
    assert_eq!(keys, vec![vec![6, 1]]);
}

#[test]
fn a_message_topic_needs_a_name() {
    assert_eq!(manage_message_topic(""), Err(ApiError::InvalidArgument));
    assert_eq!(manage_message_topic("events"), Ok(()));
    assert_eq!(manage_message_topic("é"), Ok(()));
}

fn proven(key: &[u8], value: &[u8]) -> ProvenRead {
    ProvenRead { key: key.to_vec(), value: value.to_vec() }
}

#[test]
fn merkle_proofs_of_a_query_are_checked_in_order() {
    let root = Hash32::new([7; 32]);
    let proofs = vec![proven(b"a", b"1"), proven(b"b", b"2")];
    let trace = vec![b"a".to_vec(), b"b".to_vec()];
    assert_eq!(validate_query_merkle_proof(&root, &proofs, &trace, &b"2".to_vec(), Ok(root)), Ok(()));
    assert_eq!(
        validate_query_merkle_proof(&root, &proofs, &vec![b"a".to_vec()], &b"2".to_vec(), Ok(root)),
        Err(ValidationError::PathLengthDifferentThanProofLessOne)
    );
    assert_eq!(
        validate_query_merkle_proof(&root, &proofs, &vec![b"a".to_vec(), b"c".to_vec()], &b"2".to_vec(), Ok(root)),
        Err(ValidationError::UnexpectedKey)
    );
    assert_eq!(
        validate_query_merkle_proof(&root, &proofs, &trace, &b"1".to_vec(), Ok(root)),
        Err(ValidationError::UnexpectedValue)
    );
    assert_eq!(
        validate_query_merkle_proof(&root, &proofs, &trace, &b"2".to_vec(), Ok(Hash32::new([8; 32]))),
        Err(ValidationError::InvalidProofHash)
    );
    assert_eq!(
        validate_query_merkle_proof(&root, &proofs, &trace, &b"2".to_vec(), Err("too long".to_string())),
        Err(ValidationError::BytesRepr("too long".to_string()))
    );
}
