use casper_node_logic::execution_kind::EntityAddr;
use casper_node_logic::executor::{
    install_after_commit, install_after_constructor, install_after_mint, InstallContractResult, InstallStep,
    callee_key, checked_out, constructor_gas, first_step, legacy_outcome, on_byte_code_read,
    on_contract_read, on_contract_value, purse_after_read, purse_creation_failed, purse_of_entity,
    transfer_failed, u32_le_bytes, vm_outcome, EffectsSource, EntityKind, ExecStep, ExecutionKind,
    ExecutorV2, GasUsage, GlobalStateError, HostError, InstallContractError, LegacyError,
    MintTransfer, PurseStep, StateKey, StoredValue, TrapCode, URef, VmResult,
};
use casper_node_logic::executor_config::{ExecutorConfigBuilder, ExecutorKind};
use casper_node_logic::hash32::Hash32;
use casper_node_logic::lanes::TransactionRuntime;

fn h(b: u8) -> Hash32 {
    Hash32::new([b; 32])
}

fn purse(b: u8) -> URef {
    URef { addr: h(b), access_rights: 7 }
}

fn v2_entity(code: u8, main: u8) -> StoredValue {
    StoredValue::AddressableEntity {
        kind: EntityKind::SmartContract(TransactionRuntime::VmCasperV2),
        byte_code_addr: h(code),
        main_purse: purse(main),
    }
}

#[test]
fn session_code_runs_through_call() {
    let step = first_step(&ExecutionKind::SessionBytes(vec![0, 97, 115, 109]));
    assert_eq!(step, ExecStep::Run { wasm: vec![0, 97, 115, 109], export: "call".to_string() });
}

#[test]
fn stored_contract_is_read_legacy_key_first() {
    let step = first_step(&ExecutionKind::Stored { address: h(1), entry_point: "mint".to_string() });
    assert_eq!(
        step,
        ExecStep::ReadContract { legacy_key: StateKey::Hash(h(1)), key: StateKey::SmartContract(h(1)) }
    );
}

#[test]
fn package_leads_to_latest_version() {
    let step = on_contract_read(
        h(1),
        &"mint".to_string(),
        0,
        purse(9),
        Some(StoredValue::SmartContract { latest_version: Some(h(2)) }),
    );
    assert_eq!(
        step,
        ExecStep::ReadLatestVersion { key: StateKey::AddressableEntity(EntityAddr::SmartContract(h(2))) }
    );
}

#[test]
fn v2_entity_reads_byte_code_and_transfers_value() {
    let step = on_contract_value(h(1), &"mint".to_string(), 500, purse(9), Some(v2_entity(3, 4)));
    assert_eq!(
        step,
        ExecStep::ReadByteCode {
            key: StateKey::ByteCode(h(3)),
            transfer: Some(MintTransfer { source: purse(9), target: purse(4), amount: 500 }),
        }
    );
    let step = on_contract_value(h(1), &"mint".to_string(), 0, purse(9), Some(v2_entity(3, 4)));
    assert_eq!(step, ExecStep::ReadByteCode { key: StateKey::ByteCode(h(3)), transfer: None });
}

#[test]
fn v1_entity_and_legacy_contract_run_on_legacy_engine() {
    let v1 = StoredValue::AddressableEntity {
        kind: EntityKind::SmartContract(TransactionRuntime::VmCasperV1),
        byte_code_addr: h(3),
        main_purse: purse(4),
    };
    let expected =
        ExecStep::RunLegacy { entity_addr: EntityAddr::SmartContract(h(1)), entry_point: "mint".to_string() };
    assert_eq!(on_contract_read(h(1), &"mint".to_string(), 5, purse(9), Some(v1)), expected);
    assert_eq!(
        on_contract_read(h(1), &"mint".to_string(), 5, purse(9), Some(StoredValue::LegacyContract)),
        expected
    );
}

#[test]
fn byte_code_runs_after_transfer() {
    let transfer = MintTransfer { source: purse(9), target: purse(4), amount: 500 };
    let step = on_byte_code_read(&"mint".to_string(), Some(transfer), Some(StoredValue::ByteCode(vec![1, 2])));
    assert_eq!(step, ExecStep::TransferThenRun { transfer, wasm: vec![1, 2], export: "mint".to_string() });
    let step = on_byte_code_read(&"mint".to_string(), None, Some(StoredValue::ByteCode(vec![1, 2])));
    assert_eq!(step, ExecStep::Run { wasm: vec![1, 2], export: "mint".to_string() });
}

#[test]
fn callee_is_contract_or_initiator() {
    let stored = ExecutionKind::Stored { address: h(1), entry_point: "x".to_string() };
    assert_eq!(callee_key(&stored, h(7)), StateKey::SmartContract(h(1)));
    assert_eq!(callee_key(&ExecutionKind::SessionBytes(vec![]), h(7)), StateKey::Account(h(7)));
}

#[test]
fn vm_outcomes() {
    let gas = GasUsage { gas_limit: 100, remaining_points: 40 };
    let ok = vm_outcome(VmResult::Completed, gas);
    assert_eq!(ok.host_error, None);
    assert_eq!(ok.effects, EffectsSource::Execution);

    let returned = vm_outcome(VmResult::Returned { revert: false, data: Some(vec![1]) }, gas);
    assert_eq!(returned.host_error, None);
    assert_eq!(returned.output, Some(vec![1]));
    assert_eq!(returned.effects, EffectsSource::Merged);

    let reverted = vm_outcome(VmResult::Returned { revert: true, data: Some(vec![2]) }, gas);
    assert_eq!(reverted.host_error, Some(HostError::CalleeReverted));
    assert_eq!(reverted.output, Some(vec![2]));
    assert_eq!(reverted.effects, EffectsSource::Discarded);

    let out_of_gas = vm_outcome(VmResult::OutOfGas, gas);
    assert_eq!(out_of_gas.host_error, Some(HostError::CalleeGasDepleted));
    assert_eq!(out_of_gas.effects, EffectsSource::Execution);

    let trapped = vm_outcome(VmResult::Trapped(TrapCode::Other(3)), gas);
    assert_eq!(trapped.host_error, Some(HostError::CalleeTrapped(TrapCode::Other(3))));
    assert_eq!(trapped.effects, EffectsSource::Discarded);

    let export = vm_outcome(VmResult::ExportError, gas);
    assert_eq!(export.host_error, Some(HostError::NotCallable));
    assert_eq!(export.gas_usage, gas);
}

#[test]
fn failed_transfer_costs_one_gas() {
    let r = transfer_failed(1000, HostError::CalleeReverted);
    assert_eq!(r.gas_usage, GasUsage { gas_limit: 1000, remaining_points: 999 });
    assert_eq!(r.host_error, Some(HostError::CalleeReverted));
    assert_eq!(r.output, None);
}

#[test]
fn legacy_revert_code_is_output_in_little_endian() {
    assert_eq!(u32_le_bytes(0x0403_0201), vec![1, 2, 3, 4]);
    let r = legacy_outcome(100, 30, Some(LegacyError::Revert(258)), None);
    assert_eq!(r.host_error, Some(HostError::CalleeReverted));
    assert_eq!(r.output, Some(vec![2, 1, 0, 0]));
    assert_eq!(r.gas_usage, GasUsage { gas_limit: 100, remaining_points: 70 });
    assert_eq!(r.effects, EffectsSource::Legacy);
}

#[test]
fn legacy_failures() {
    let r = legacy_outcome(100, 100, Some(LegacyError::GasLimit), None);
    assert_eq!(r.host_error, Some(HostError::CalleeGasDepleted));
    assert_eq!(r.gas_usage.remaining_points, 0);
    let r = legacy_outcome(100, 1, Some(LegacyError::Other), Some(vec![5]));
    assert_eq!(r.host_error, Some(HostError::CalleeTrapped(TrapCode::UnreachableCodeReached)));
    assert_eq!(r.output, Some(vec![5]));
    let r = legacy_outcome(100, 1, None, Some(vec![6]));
    assert_eq!(r.host_error, None);
    assert_eq!(r.output, Some(vec![6]));
}

#[test]
fn checkout_outcomes() {
    assert_eq!(checked_out::<u8, String>(Ok(Some(3))), Ok(3));
    assert_eq!(checked_out::<u8, String>(Ok(None)), Err(GlobalStateError::RootNotFound));
    assert_eq!(
        checked_out::<u8, String>(Err("disk".to_string())),
        Err(GlobalStateError::Other("disk".to_string()))
    );
}

#[test]
fn constructor_outcomes() {
    let used = GasUsage { gas_limit: 50, remaining_points: 10 };
    assert_eq!(
        constructor_gas::<String, String>(50, None),
        Ok(GasUsage { gas_limit: 50, remaining_points: 50 })
    );
    assert_eq!(constructor_gas::<String, String>(50, Some(Ok((None, used)))), Ok(used));
    assert_eq!(
        constructor_gas::<String, String>(50, Some(Ok((Some(HostError::CalleeReverted), used)))),
        Err(InstallContractError::Constructor { host_error: HostError::CalleeReverted })
    );
    assert_eq!(
        constructor_gas::<String, String>(50, Some(Err("vm".to_string()))),
        Err(InstallContractError::Execute("vm".to_string()))
    );
    assert_eq!(
        purse_creation_failed::<String, String>(),
        InstallContractError::SystemContract(HostError::CalleeTrapped(TrapCode::UnreachableCodeReached))
    );
}

#[test]
fn purse_lookup() {
    assert_eq!(purse_after_read(Some(StoredValue::Account { main_purse: purse(1) })), PurseStep::Found(purse(1)));
    assert_eq!(
        purse_after_read(Some(StoredValue::KeyValue(StateKey::AddressableEntity(EntityAddr::Account(h(2)))))),
        PurseStep::ReadEntity(StateKey::AddressableEntity(EntityAddr::Account(h(2))))
    );
    assert_eq!(
        purse_after_read(Some(StoredValue::SmartContract { latest_version: Some(h(3)) })),
        PurseStep::ReadEntity(StateKey::AddressableEntity(EntityAddr::SmartContract(h(3))))
    );
    assert_eq!(purse_of_entity(Some(v2_entity(3, 4))), purse(4));
}

#[test]
fn execution_stack_is_last_in_first_out() {
    let config = ExecutorConfigBuilder::new()
        .with_memory_limit(17)
        .with_executor_kind(ExecutorKind::Compiled)
        .build()
        .unwrap();
    let mut stack = ExecutorV2::new(config);
    assert_eq!(stack.config.memory_limit, 17);
    assert_eq!(stack.pop_execution_stack(), None);
    stack.push_execution_stack(ExecutionKind::SessionBytes(vec![1]));
    stack.push_execution_stack(ExecutionKind::Stored { address: h(1), entry_point: "a".to_string() });
    assert_eq!(
        stack.pop_execution_stack(),
        Some(ExecutionKind::Stored { address: h(1), entry_point: "a".to_string() })
    );
    assert_eq!(stack.pop_execution_stack(), Some(ExecutionKind::SessionBytes(vec![1])));
    assert_eq!(stack.pop_execution_stack(), None);
}

#[test]
fn installation_fails_before_commit_or_commits_once() {
    let config = ExecutorConfigBuilder::new()
        .with_memory_limit(17)
        .with_executor_kind(ExecutorKind::Compiled)
        .build()
        .unwrap();
    let executor = ExecutorV2::new(config);
    let missing: Result<Option<u8>, String> = Ok(None);
    let r: Result<u8, InstallContractError<String, String>> = executor.install_contract(missing);
    assert_eq!(r, Err(InstallContractError::GlobalState(GlobalStateError::RootNotFound)));
    let broken: Result<Option<u8>, String> = Err("disk".to_string());
    let r: Result<u8, InstallContractError<String, String>> = executor.install_contract(broken);
    assert_eq!(r, Err(InstallContractError::GlobalState(GlobalStateError::Other("disk".to_string()))));
    let ok: Result<Option<u8>, String> = Ok(Some(4));
    let r: Result<u8, InstallContractError<String, String>> = executor.install_contract(ok);
    assert_eq!(r, Ok(4));

    // The mint fails: the installation ends.
    let step: InstallStep<String, String> = install_after_mint(Err::<u8, ()>(()), None, None, 50);
    assert_eq!(
        step,
        InstallStep::Fail(InstallContractError::SystemContract(HostError::CalleeTrapped(
            TrapCode::UnreachableCodeReached
        )))
    );
    // Without a constructor, the effects are committed with all gas left.
    let step: InstallStep<String, String> = install_after_mint(Ok::<u8, ()>(1), None, Some(vec![9]), 50);
    assert_eq!(step, InstallStep::Commit { gas_usage: GasUsage { gas_limit: 50, remaining_points: 50 } });
    // With one, it runs with its input (empty when none is given).
    let step: InstallStep<String, String> = install_after_mint(Ok::<u8, ()>(1), Some("init".to_string()), None, 50);
    assert_eq!(step, InstallStep::RunConstructor { entry_point: "init".to_string(), input: vec![] });

    let used = GasUsage { gas_limit: 50, remaining_points: 20 };
    let step: InstallStep<String, String> = install_after_constructor(50, Some(Ok((None, used))));
    assert_eq!(step, InstallStep::Commit { gas_usage: used });
    let step: InstallStep<String, String> = install_after_constructor(50, Some(Ok((Some(HostError::CalleeReverted), used))));
    assert_eq!(step, InstallStep::Fail(InstallContractError::Constructor { host_error: HostError::CalleeReverted }));
    let step: InstallStep<String, String> = install_after_constructor(50, Some(Err("vm".to_string())));
    assert_eq!(step, InstallStep::Fail(InstallContractError::Execute("vm".to_string())));

    let done: Result<InstallContractResult<u8>, InstallContractError<String, String>> =
        install_after_commit(h(3), used, 7u8, Ok(h(4)));
    assert_eq!(
        done,
        Ok(InstallContractResult { smart_contract_addr: h(3), gas_usage: used, effects: 7, post_state_hash: h(4) })
    );
    let failed: Result<InstallContractResult<u8>, InstallContractError<String, String>> =
        install_after_commit(h(3), used, 7u8, Err(GlobalStateError::Other("full".to_string())));
    assert_eq!(failed, Err(InstallContractError::GlobalState(GlobalStateError::Other("full".to_string()))));
}
