use casper_node_logic::lanes::TransactionEntryPoint;
use casper_node_logic::wasm_v2_request::{
    plan_wasm_v2_request, ExecutionKind, InvalidRequest, InvocationTarget, RequestTarget, WasmV2Input, WasmV2Plan,
};

#[test]
fn smoke_test() {}

fn input(target: Option<RequestTarget>, entry_point: TransactionEntryPoint) -> WasmV2Input {
    WasmV2Input {
        gas_limit: [1_000, 0, 0, 0, 0, 0, 0, 0],
        session_args_bytes: Some(vec![1, 2, 3]),
        transferred_value: Some(7),
        target,
        entry_point,
    }
}

fn session() -> Option<RequestTarget> {
    Some(RequestTarget::Session { module_bytes: vec![0, 97, 115, 109], seed: Some([9; 32]) })
}

#[test]
fn session_call_executes_the_module() {
    let plan = plan_wasm_v2_request(input(session(), TransactionEntryPoint::Call));
    assert_eq!(
        plan,
        Ok(WasmV2Plan::Execute {
            kind: ExecutionKind::SessionBytes(vec![0, 97, 115, 109]),
            input: vec![1, 2, 3],
            gas_limit: 1_000,
            transferred_value: 7,
        })
    );
}

#[test]
fn session_custom_installs_with_constructor() {
    let plan = plan_wasm_v2_request(input(session(), TransactionEntryPoint::Custom("init".to_string())));
    assert_eq!(
        plan,
        Ok(WasmV2Plan::Install {
            module_bytes: vec![0, 97, 115, 109],
            entry_point: Some("init".to_string()),
            input: Some(vec![1, 2, 3]),
            seed: Some([9; 32]),
            gas_limit: 1_000,
            transferred_value: 7,
        })
    );
}

#[test]
fn session_without_constructor_installs_without_input() {
    let mut i = input(session(), TransactionEntryPoint::Custom(String::new()));
    i.session_args_bytes = Some(vec![]);
    assert_eq!(
        plan_wasm_v2_request(i),
        Ok(WasmV2Plan::Install {
            module_bytes: vec![0, 97, 115, 109],
            entry_point: None,
            input: None,
            seed: Some([9; 32]),
            gas_limit: 1_000,
            transferred_value: 7,
        })
    );
}

#[test]
fn stored_contract_by_hash_is_executed() {
    let target = Some(RequestTarget::Stored { id: InvocationTarget::ByHash([3; 32]) });
    let plan = plan_wasm_v2_request(input(target, TransactionEntryPoint::Custom("transfer".to_string())));
    assert_eq!(
        plan,
        Ok(WasmV2Plan::Execute {
            kind: ExecutionKind::Stored { address: [3; 32], entry_point: "transfer".to_string() },
            input: vec![1, 2, 3],
            gas_limit: 1_000,
            transferred_value: 7,
        })
    );
}

#[test]
fn invalid_requests() {
    let mut i = input(session(), TransactionEntryPoint::Call);
    i.gas_limit = [1, 0, 0, 0, 0, 0, 0, 1];
    assert_eq!(plan_wasm_v2_request(i), Err(InvalidRequest::InvalidGasLimit([1, 0, 0, 0, 0, 0, 0, 1])));
    let mut i = input(session(), TransactionEntryPoint::Call);
    i.session_args_bytes = None;
    assert_eq!(plan_wasm_v2_request(i), Err(InvalidRequest::ExpectedBytesArguments));
    let mut i = input(session(), TransactionEntryPoint::Call);
    i.transferred_value = None;
    assert_eq!(plan_wasm_v2_request(i), Err(InvalidRequest::ExpectedTransferredValue));
    let i = input(None, TransactionEntryPoint::Call);
    assert_eq!(plan_wasm_v2_request(i), Err(InvalidRequest::ExpectedTarget));
}

#[test]
fn checks_come_before_the_target_kind() {
    let mut i = input(Some(RequestTarget::Native), TransactionEntryPoint::Call);
    i.gas_limit = [0, 2, 0, 0, 0, 0, 0, 0];
    assert_eq!(plan_wasm_v2_request(i), Err(InvalidRequest::InvalidGasLimit([0, 2, 0, 0, 0, 0, 0, 0])));
    let mut i = input(Some(RequestTarget::Native), TransactionEntryPoint::Call);
    i.session_args_bytes = None;
    assert_eq!(plan_wasm_v2_request(i), Err(InvalidRequest::ExpectedBytesArguments));
    let mut i = input(Some(RequestTarget::Native), TransactionEntryPoint::Call);
    i.transferred_value = None;
    assert_eq!(plan_wasm_v2_request(i), Err(InvalidRequest::ExpectedTransferredValue));
}
