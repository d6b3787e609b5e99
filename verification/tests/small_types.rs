use std::collections::BTreeMap;

use casper_node_logic::call_error::CallError;
use casper_node_logic::env_info::EnvInfo;
use casper_node_logic::executor_config::{ExecutorConfigBuilder, ExecutorKind};
use casper_node_logic::flush::{FlushRequest, FlushResult};
use casper_node_logic::ordered_keys::keys_in_order;

#[test]
fn executor_config_needs_every_setting() {
    let config = ExecutorConfigBuilder::new()
        .with_memory_limit(17)
        .with_executor_kind(ExecutorKind::Compiled)
        .build()
        .unwrap();
    assert_eq!(config.memory_limit, 17);
    assert_eq!(config.executor_kind, ExecutorKind::Compiled);
    assert_eq!(
        ExecutorConfigBuilder::new().with_executor_kind(ExecutorKind::Compiled).build().err(),
        Some("Memory limit is not set")
    );
    assert_eq!(ExecutorConfigBuilder::new().with_memory_limit(1).build().err(), Some("Executor kind is not set"));
}

#[test]
fn flush_results() {
    let _request = FlushRequest::new();
    let ok: FlushResult<String> = FlushResult::Success;
    assert!(ok.flushed());
    assert_eq!(ok.as_error(), Ok(()));
    let disabled: FlushResult<String> = FlushResult::ManualSyncDisabled;
    assert!(!disabled.flushed());
    assert_eq!(disabled.as_error(), Ok(()));
    let failed: FlushResult<String> = FlushResult::Failure("disk".to_string());
    assert_eq!(failed.as_error(), Err("disk".to_string()));
}

#[test]
fn call_error_codes_round_trip() {
    for e in [CallError::CalleeReverted, CallError::CalleeTrapped, CallError::CalleeGasDepleted, CallError::NotCallable] {
        assert_eq!(CallError::try_from_code(e.code()), Ok(e));
    }
    assert_eq!(CallError::CalleeReverted.code(), 1);
    assert_eq!(CallError::NotCallable.code(), 4);
    assert_eq!(CallError::try_from_code(0), Err(()));
    assert_eq!(CallError::try_from_code(5), Err(()));
    assert_eq!(CallError::CalleeGasDepleted.message(), "callee gas depleted");
}

#[test]
fn keys_come_in_order() {
    let mut m = BTreeMap::new();
    m.insert(5u64, "e");
    m.insert(1u64, "a");
    m.insert(3u64, "c");
    assert_eq!(keys_in_order(&m), vec![1, 3, 5]);
}

#[test]
fn env_info_holds_its_fields() {
    let info = EnvInfo { block_time: 1, transferred_value: 2, balance: 3, caller_id: [4; 32], entity_kind: 5 };
    let copy = info;
    assert_eq!(copy, info);
    assert_eq!(copy.caller_id, [4; 32]);
}
