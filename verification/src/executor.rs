//! The decisions of the Wasm executor around one execution: which code an
//! execution request runs, what the virtual machine's or the legacy engine's
//! outcome makes of the result, and how a contract installation ends.
//!
//! Reads of global state, the virtual machine, the legacy engine and the
//! mint are outside work: each step below says what to do next, and the
//! caller hands back what came of it as plain values.

use vstd::prelude::*;

use crate::execution_kind::EntityAddr;
use crate::executor_config::ExecutorConfig;
use crate::hash32::Hash32;
use crate::lanes::TransactionRuntime;

verus! {

/// The export that session code is entered through.
pub const DEFAULT_WASM_ENTRY_POINT: &'static str = "call";

/// The gas that a failed transfer to a called contract costs.
pub const DEFAULT_MINT_TRANSFER_GAS_COST: u64 = 1;

/// What an execution request runs.
#[derive(Clone, Debug, PartialEq, Eq)]
pub enum ExecutionKind {
    /// Session code given with the request.
    SessionBytes(Vec<u8>),
    /// An entry point of a stored contract.
    Stored { address: Hash32, entry_point: String },
}

/// A key of global state that the executor reads.
#[derive(Copy, Clone, Debug, PartialEq, Eq)]
pub enum StateKey {
    /// A contract stored under its hash by the legacy engine.
    Hash(Hash32),
    /// A smart contract package.
    SmartContract(Hash32),
    /// An addressable entity.
    AddressableEntity(EntityAddr),
    /// Wasm byte code of the second virtual machine.
    ByteCode(Hash32),
    /// An account.
    Account(Hash32),
}

/// A purse: a reference to a balance.
#[derive(Copy, Clone, Debug, PartialEq, Eq)]
pub struct URef {
    pub addr: Hash32,
    pub access_rights: u8,
}

/// The kind of an addressable entity.
#[derive(Copy, Clone, Debug, PartialEq, Eq, Structural)]
pub enum EntityKind {
    System,
    Account,
    SmartContract(TransactionRuntime),
}

/// What the executor reads of a value of global state.
#[derive(Clone, Debug, PartialEq, Eq)]
pub enum StoredValue {
    /// A smart contract package, with the hash of its latest version if it
    /// has one.
    SmartContract { latest_version: Option<Hash32> },
    /// An addressable entity.
    AddressableEntity { kind: EntityKind, byte_code_addr: Hash32, main_purse: URef },
    /// A contract of the legacy engine.
    LegacyContract,
    /// Wasm byte code.
    ByteCode(Vec<u8>),
    /// An account, with its main purse.
    Account { main_purse: URef },
    /// A value that holds a key, such as the key of an account's entity.
    KeyValue(StateKey),
    /// A value of another kind.
    Other,
}

/// A transfer of the value sent along with a call, from the caller's purse
/// to the called contract's main purse.
#[derive(Copy, Clone, Debug, PartialEq, Eq)]
pub struct MintTransfer {
    pub source: URef,
    pub target: URef,
    pub amount: u64,
}

/// What to do next to execute a request.
#[derive(Clone, Debug, PartialEq, Eq)]
pub enum ExecStep {
    /// Read `legacy_key`, and if nothing is stored there, `key`; report the
    /// first value found with [`on_contract_read`].
    ReadContract { legacy_key: StateKey, key: StateKey },
    /// Read the package's latest version and report it with
    /// [`on_contract_value`].
    ReadLatestVersion { key: StateKey },
    /// Read the contract's byte code and report it with
    /// [`on_byte_code_read`].
    ReadByteCode { key: StateKey, transfer: Option<MintTransfer> },
    /// Run the contract with the legacy engine.
    RunLegacy { entity_addr: EntityAddr, entry_point: String },
    /// Make the transfer, then run the Wasm through the export; if the
    /// transfer fails, the execution ends with [`transfer_failed`].
    TransferThenRun { transfer: MintTransfer, wasm: Vec<u8>, export: String },
    /// Run the Wasm through the export.
    Run { wasm: Vec<u8>, export: String },
}

/// The first step of executing a request: session code runs at once, a
/// stored contract is looked up first.
pub fn first_step(kind: &ExecutionKind) -> (r: ExecStep)
    ensures
        match *kind {
            ExecutionKind::SessionBytes(wasm) => r matches ExecStep::Run { wasm: w, export: e } && w@
                == wasm@ && e@ == DEFAULT_WASM_ENTRY_POINT@,
            ExecutionKind::Stored { address, .. } => r == ExecStep::ReadContract {
                legacy_key: StateKey::Hash(address),
                key: StateKey::SmartContract(address),
            },
        },
{
    match kind {
        ExecutionKind::SessionBytes(wasm) => ExecStep::Run {
            wasm: wasm.clone(),
            export: String::from_str(DEFAULT_WASM_ENTRY_POINT),
        },
        ExecutionKind::Stored { address, .. } => ExecStep::ReadContract {
            legacy_key: StateKey::Hash(*address),
            key: StateKey::SmartContract(*address),
        },
    }
}

/// Whether the executor can go on with a contract value read from global
/// state: a package with a latest version other than itself, an entity of a
/// smart contract, or a legacy contract. It stops on anything else.
pub open spec fn contract_readable(address: Hash32, value: Option<StoredValue>) -> bool {
    match value {
        Some(StoredValue::SmartContract { latest_version }) => latest_version matches Some(v) && v != address,
        _ => contract_runnable(value),
    }
}

/// Whether a contract value, after the package's indirection, can be run:
/// the entity of a smart contract, or a legacy contract.
pub open spec fn contract_runnable(value: Option<StoredValue>) -> bool {
    match value {
        Some(StoredValue::AddressableEntity { kind: EntityKind::SmartContract(_), .. }) => true,
        Some(StoredValue::LegacyContract) => true,
        _ => false,
    }
}

/// Whether `r` is the step after the contract itself has been read: for an
/// entity of the second virtual machine, reading its byte code, with a
/// transfer to its main purse if a value is sent along; otherwise a run on
/// the legacy engine.
pub open spec fn is_contract_step(
    r: ExecStep,
    address: Hash32,
    entry_point: Seq<char>,
    transferred_value: u64,
    source_purse: URef,
    value: StoredValue,
) -> bool {
    match value {
        StoredValue::AddressableEntity {
            kind: EntityKind::SmartContract(TransactionRuntime::VmCasperV2),
            byte_code_addr,
            main_purse,
        } => r == ExecStep::ReadByteCode {
            key: StateKey::ByteCode(byte_code_addr),
            transfer: if transferred_value != 0 {
                Some(MintTransfer { source: source_purse, target: main_purse, amount: transferred_value })
            } else {
                None
            },
        },
        _ => r matches ExecStep::RunLegacy { entity_addr: a, entry_point: e } && a == EntityAddr::SmartContract(
            address,
        ) && e@ == entry_point,
    }
}

/// The step after the value under a stored contract's address was read:
/// a package leads to its latest version, anything else is the contract.
pub fn on_contract_read(
    address: Hash32,
    entry_point: &String,
    transferred_value: u64,
    source_purse: URef,
    value: Option<StoredValue>,
) -> (r: ExecStep)
    requires
        contract_readable(address, value),
    ensures
        match value {
            Some(StoredValue::SmartContract { latest_version: Some(v) }) => r == ExecStep::ReadLatestVersion {
                key: StateKey::AddressableEntity(EntityAddr::SmartContract(v)),
            },
            Some(v) => is_contract_step(r, address, entry_point@, transferred_value, source_purse, v),
            None => false,
        },
{
    match value {
        Some(StoredValue::SmartContract { latest_version: Some(v) }) => ExecStep::ReadLatestVersion {
            key: StateKey::AddressableEntity(EntityAddr::SmartContract(v)),
        },
        _ => on_contract_value(address, entry_point, transferred_value, source_purse, value),
    }
}

/// The step for a contract that can be run: an entity of the legacy
/// virtual machine and a legacy contract run on the legacy engine; for an
/// entity of the second virtual machine its byte code is read, with a
/// transfer to its main purse if a value is sent along.
pub fn on_contract_value(
    address: Hash32,
    entry_point: &String,
    transferred_value: u64,
    source_purse: URef,
    value: Option<StoredValue>,
) -> (r: ExecStep)
    requires
        contract_runnable(value),
    ensures
        value matches Some(v) && is_contract_step(r, address, entry_point@, transferred_value, source_purse, v),
{
    match value {
        Some(StoredValue::AddressableEntity {
            kind: EntityKind::SmartContract(TransactionRuntime::VmCasperV2),
            byte_code_addr,
            main_purse,
        }) => {
            let transfer = if transferred_value != 0 {
                Some(MintTransfer { source: source_purse, target: main_purse, amount: transferred_value })
            } else {
                None
            };
            ExecStep::ReadByteCode { key: StateKey::ByteCode(byte_code_addr), transfer }
        },
        _ => ExecStep::RunLegacy {
            entity_addr: EntityAddr::SmartContract(address),
            entry_point: entry_point.clone(),
        },
    }
}

/// The step after the byte code was read: run it through the entry point,
/// after the transfer if there is one.
pub fn on_byte_code_read(entry_point: &String, transfer: Option<MintTransfer>, value: Option<StoredValue>) -> (r:
    ExecStep)
    requires
        value matches Some(StoredValue::ByteCode(_)),
    ensures
        value matches Some(StoredValue::ByteCode(wasm)) && match transfer {
            Some(t) => r matches ExecStep::TransferThenRun { transfer: t2, wasm: w, export: e } && t2 == t
                && w@ == wasm@ && e@ == entry_point@,
            None => r matches ExecStep::Run { wasm: w, export: e } && w@ == wasm@ && e@ == entry_point@,
        },
{
    match value {
        Some(StoredValue::ByteCode(wasm)) => match transfer {
            Some(t) => ExecStep::TransferThenRun { transfer: t, wasm, export: entry_point.clone() },
            None => ExecStep::Run { wasm, export: entry_point.clone() },
        },
        _ => {
            proof {
                assert(false);
            }
            ExecStep::Run { wasm: Vec::new(), export: entry_point.clone() }
        },
    }
}

/// The key of the code that is called: the stored contract, or for session
/// code the initiator's account.
pub fn callee_key(kind: &ExecutionKind, initiator: Hash32) -> (r: StateKey)
    ensures
        r == match *kind {
            ExecutionKind::Stored { address, .. } => StateKey::SmartContract(address),
            ExecutionKind::SessionBytes(_) => StateKey::Account(initiator),
        },
{
    match kind {
        ExecutionKind::Stored { address, .. } => StateKey::SmartContract(*address),
        ExecutionKind::SessionBytes(_) => StateKey::Account(initiator),
    }
}

/// Why a Wasm instance stopped abnormally.
#[derive(Copy, Clone, Debug, PartialEq, Eq, Structural)]
pub enum TrapCode {
    /// An `unreachable` instruction was executed.
    UnreachableCodeReached,
    /// Another trap, by its code.
    Other(u32),
}

/// How a called contract failed.
#[derive(Copy, Clone, Debug, PartialEq, Eq, Structural)]
pub enum HostError {
    CalleeReverted,
    CalleeTrapped(TrapCode),
    CalleeGasDepleted,
    NotCallable,
}

/// The gas an execution was given and the gas it had left.
#[derive(Copy, Clone, Debug, PartialEq, Eq, Structural)]
pub struct GasUsage {
    pub gas_limit: u64,
    pub remaining_points: u64,
}

/// How the virtual machine left a Wasm instance.
#[derive(Clone, Debug, PartialEq, Eq)]
pub enum VmResult {
    /// The export returned normally.
    Completed,
    /// The contract returned early with data, reverting or not.
    Returned { revert: bool, data: Option<Vec<u8>> },
    /// The gas ran out.
    OutOfGas,
    /// The instance trapped.
    Trapped(TrapCode),
    /// The export could not be called.
    ExportError,
}

/// Whose changes to global state the result of an execution carries.
#[derive(Copy, Clone, Debug, PartialEq, Eq, Structural)]
pub enum EffectsSource {
    /// The changes the execution made.
    Execution,
    /// The state before the execution: its changes are discarded.
    Discarded,
    /// The state before the execution with the execution's changes merged in.
    Merged,
    /// The state with the legacy engine's changes applied.
    Legacy,
}

/// The result of one execution.
#[derive(Clone, Debug, PartialEq, Eq)]
pub struct ExecuteOutcome {
    pub host_error: Option<HostError>,
    pub output: Option<Vec<u8>>,
    pub gas_usage: GasUsage,
    pub effects: EffectsSource,
}

/// The result that the virtual machine's outcome gives: normal completion
/// keeps the execution's changes; a return merges them unless the contract
/// reverted, and hands back its data; running out of gas keeps the changes
/// made so far; a trap or an export that cannot be called discards them.
pub open spec fn vm_outcome_spec(vm: VmResult, gas_usage: GasUsage) -> ExecuteOutcome {
    match vm {
        VmResult::Completed => ExecuteOutcome {
            host_error: None,
            output: None,
            gas_usage,
            effects: EffectsSource::Execution,
        },
        VmResult::Returned { revert, data } => ExecuteOutcome {
            host_error: if revert {
                Some(HostError::CalleeReverted)
            } else {
                None
            },
            output: data,
            gas_usage,
            effects: if revert {
                EffectsSource::Discarded
            } else {
                EffectsSource::Merged
            },
        },
        VmResult::OutOfGas => ExecuteOutcome {
            host_error: Some(HostError::CalleeGasDepleted),
            output: None,
            gas_usage,
            effects: EffectsSource::Execution,
        },
        VmResult::Trapped(code) => ExecuteOutcome {
            host_error: Some(HostError::CalleeTrapped(code)),
            output: None,
            gas_usage,
            effects: EffectsSource::Discarded,
        },
        VmResult::ExportError => ExecuteOutcome {
            host_error: Some(HostError::NotCallable),
            output: None,
            gas_usage,
            effects: EffectsSource::Discarded,
        },
    }
}

/// The result of a run on the virtual machine.
pub fn vm_outcome(vm: VmResult, gas_usage: GasUsage) -> (r: ExecuteOutcome)
    ensures
        r == vm_outcome_spec(vm, gas_usage),
{
    match vm {
        VmResult::Completed => ExecuteOutcome {
            host_error: None,
            output: None,
            gas_usage,
            effects: EffectsSource::Execution,
        },
        VmResult::Returned { revert, data } => {
            if revert {
                ExecuteOutcome {
                    host_error: Some(HostError::CalleeReverted),
                    output: data,
                    gas_usage,
                    effects: EffectsSource::Discarded,
                }
            } else {
                ExecuteOutcome { host_error: None, output: data, gas_usage, effects: EffectsSource::Merged }
            }
        },
        VmResult::OutOfGas => ExecuteOutcome {
            host_error: Some(HostError::CalleeGasDepleted),
            output: None,
            gas_usage,
            effects: EffectsSource::Execution,
        },
        VmResult::Trapped(code) => ExecuteOutcome {
            host_error: Some(HostError::CalleeTrapped(code)),
            output: None,
            gas_usage,
            effects: EffectsSource::Discarded,
        },
        VmResult::ExportError => ExecuteOutcome {
            host_error: Some(HostError::NotCallable),
            output: None,
            gas_usage,
            effects: EffectsSource::Discarded,
        },
    }
}

/// The result when the transfer of the value sent along fails: the mint's
/// error, and the transfer's cost taken from the gas limit.
pub fn transfer_failed(gas_limit: u64, error: HostError) -> (r: ExecuteOutcome)
    requires
        gas_limit >= DEFAULT_MINT_TRANSFER_GAS_COST,
    ensures
        r == (ExecuteOutcome {
            host_error: Some(error),
            output: None,
            gas_usage: GasUsage { gas_limit, remaining_points: (gas_limit - DEFAULT_MINT_TRANSFER_GAS_COST) as u64 },
            effects: EffectsSource::Execution,
        }),
{
    ExecuteOutcome {
        host_error: Some(error),
        output: None,
        gas_usage: GasUsage { gas_limit, remaining_points: gas_limit - DEFAULT_MINT_TRANSFER_GAS_COST },
        effects: EffectsSource::Execution,
    }
}

/// How the legacy engine failed.
#[derive(Copy, Clone, Debug, PartialEq, Eq, Structural)]
pub enum LegacyError {
    /// The gas limit was reached.
    GasLimit,
    /// The contract reverted with this code.
    Revert(u32),
    /// Any other failure.
    Other,
}

/// The little-endian bytes of a number.
pub open spec fn le_bytes_u32(v: u32) -> Seq<u8> {
    seq![v as u8, (v >> 8u32) as u8, (v >> 16u32) as u8, (v >> 24u32) as u8]
}

/// The little-endian bytes of a number.
pub fn u32_le_bytes(v: u32) -> (r: Vec<u8>)
    ensures
        r@ == le_bytes_u32(v),
{
    let mut r: Vec<u8> = Vec::new();
    r.push(v as u8);
    r.push((v >> 8u32) as u8);
    r.push((v >> 16u32) as u8);
    r.push((v >> 24u32) as u8);
    r
}

/// The result of a run on the legacy engine, which consumed `consumed` of
/// `gas_limit` and returned the (serialized) value `ret` or failed with
/// `error`: running out of gas depletes the callee; a revert passes its code
/// on as the output, in little-endian bytes; any other failure counts as a
/// trap.
pub fn legacy_outcome(gas_limit: u64, consumed: u64, error: Option<LegacyError>, ret: Option<Vec<u8>>) -> (r:
    ExecuteOutcome)
    requires
        consumed <= gas_limit,
        error matches Some(LegacyError::Revert(_)) ==> ret is None,
    ensures
        r.gas_usage == (GasUsage { gas_limit, remaining_points: (gas_limit - consumed) as u64 }),
        r.effects == EffectsSource::Legacy,
        r.host_error == match error {
            Some(LegacyError::GasLimit) => Some(HostError::CalleeGasDepleted),
            Some(LegacyError::Revert(_)) => Some(HostError::CalleeReverted),
            Some(LegacyError::Other) => Some(HostError::CalleeTrapped(TrapCode::UnreachableCodeReached)),
            None => None::<HostError>,
        },
        match error {
            Some(LegacyError::Revert(code)) => r.output matches Some(o) && o@ == le_bytes_u32(code),
            _ => r.output == ret,
        },
{
    let mut output = ret;
    let host_error = match error {
        Some(LegacyError::GasLimit) => Some(HostError::CalleeGasDepleted),
        Some(LegacyError::Revert(code)) => {
            output = Some(u32_le_bytes(code));
            Some(HostError::CalleeReverted)
        },
        Some(LegacyError::Other) => Some(HostError::CalleeTrapped(TrapCode::UnreachableCodeReached)),
        None => None,
    };
    ExecuteOutcome {
        host_error,
        output,
        gas_usage: GasUsage { gas_limit, remaining_points: gas_limit - consumed },
        effects: EffectsSource::Legacy,
    }
}

/// Why global state could not be used: the state root is unknown, or
/// another failure of the store.
#[derive(Clone, Debug, PartialEq, Eq)]
pub enum GlobalStateError<E> {
    RootNotFound,
    Other(E),
}

/// What checking out a state root gives: the state at that root, or why
/// there is none.
pub fn checked_out<T, E>(checkout: Result<Option<T>, E>) -> (r: Result<T, GlobalStateError<E>>)
    ensures
        r == match checkout {
            Ok(Some(t)) => Ok(t),
            Ok(None) => Err(GlobalStateError::<E>::RootNotFound),
            Err(e) => Err(GlobalStateError::<E>::Other(e)),
        },
{
    match checkout {
        Ok(Some(t)) => Ok(t),
        Ok(None) => Err(GlobalStateError::RootNotFound),
        Err(e) => Err(GlobalStateError::Other(e)),
    }
}

/// Why installing a contract failed.
#[derive(Clone, Debug, PartialEq, Eq)]
pub enum InstallContractError<S, X> {
    /// Global state could not be read or committed.
    GlobalState(GlobalStateError<S>),
    /// A system contract failed, such as the mint creating the main purse.
    SystemContract(HostError),
    /// The constructor failed.
    Constructor { host_error: HostError },
    /// The constructor could not be executed.
    Execute(X),
}

/// The error when the mint cannot create the new contract's main purse.
pub fn purse_creation_failed<S, X>() -> (r: InstallContractError<S, X>)
    ensures
        r == InstallContractError::<S, X>::SystemContract(HostError::CalleeTrapped(TrapCode::UnreachableCodeReached)),
{
    InstallContractError::SystemContract(HostError::CalleeTrapped(TrapCode::UnreachableCodeReached))
}

/// The gas an installation used, from the outcome of its constructor, if it
/// has one (its host error and gas usage, or why it could not run): without
/// a constructor all the gas remains; a constructor that failed fails the
/// installation.
pub open spec fn installation_gas<S, X>(
    gas_limit: u64,
    constructor: Option<Result<(Option<HostError>, GasUsage), X>>,
) -> Result<GasUsage, InstallContractError<S, X>> {
    match constructor {
        None => Ok(GasUsage { gas_limit, remaining_points: gas_limit }),
        Some(Ok((Some(host_error), _))) => Err(InstallContractError::<S, X>::Constructor { host_error }),
        Some(Ok((None, gas_usage))) => Ok(gas_usage),
        Some(Err(x)) => Err(InstallContractError::<S, X>::Execute(x)),
    }
}

/// The gas an installation used, from the outcome of its constructor, if it
/// has one (its host error and gas usage, or why it could not run): without
/// a constructor all the gas remains; a constructor that failed fails the
/// installation. On success, the constructor's changes are kept.
pub fn constructor_gas<S, X>(
    gas_limit: u64,
    constructor: Option<Result<(Option<HostError>, GasUsage), X>>,
) -> (r: Result<GasUsage, InstallContractError<S, X>>)
    ensures
        r == installation_gas::<S, X>(gas_limit, constructor),
{
    match constructor {
        None => Ok(GasUsage { gas_limit, remaining_points: gas_limit }),
        Some(Ok((Some(host_error), _))) => Err(InstallContractError::Constructor { host_error }),
        Some(Ok((None, gas_usage))) => Ok(gas_usage),
        Some(Err(x)) => Err(InstallContractError::Execute(x)),
    }
}

/// What to do next to install a contract. The installation ends in
/// [`InstallStep::Fail`] without committing anything, or goes on to
/// [`InstallStep::Commit`] once, after which [`install_after_commit`] gives
/// its result.
#[derive(Clone, Debug, PartialEq, Eq)]
pub enum InstallStep<S, X> {
    /// Run the constructor's entry point with the input on a fork of the
    /// tracking copy, and report with [`install_after_constructor`].
    RunConstructor { entry_point: String, input: Vec<u8> },
    /// Commit the tracking copy's effects once, and report with
    /// [`install_after_commit`].
    Commit { gas_usage: GasUsage },
    /// The installation failed; nothing is committed.
    Fail(InstallContractError<S, X>),
}

/// The step after the mint was asked for the new contract's main purse
/// (`Ok` with the purse, or the mint's error): a failed mint fails the
/// installation; otherwise the constructor runs, if there is one, with its
/// input (none is an empty input), and without one the effects are
/// committed with all the gas remaining.
pub fn install_after_mint<P, M, S, X>(
    mint: Result<P, M>,
    entry_point: Option<String>,
    input: Option<Vec<u8>>,
    gas_limit: u64,
) -> (r: InstallStep<S, X>)
    ensures
        match mint {
            Err(_) => r == InstallStep::<S, X>::Fail(
                InstallContractError::SystemContract(HostError::CalleeTrapped(TrapCode::UnreachableCodeReached)),
            ),
            Ok(_) => match entry_point {
                Some(ep) => r matches InstallStep::RunConstructor { entry_point: e, input: i } && e == ep
                    && i@ == match input {
                    Some(bytes) => bytes@,
                    None => Seq::<u8>::empty(),
                },
                None => r == InstallStep::<S, X>::Commit {
                    gas_usage: GasUsage { gas_limit, remaining_points: gas_limit },
                },
            },
        },
{
    match mint {
        Err(_) => InstallStep::Fail(purse_creation_failed()),
        Ok(_) => match entry_point {
            Some(ep) => {
                let input = match input {
                    Some(bytes) => bytes,
                    None => Vec::new(),
                };
                InstallStep::RunConstructor { entry_point: ep, input }
            },
            None => InstallStep::Commit { gas_usage: GasUsage { gas_limit, remaining_points: gas_limit } },
        },
    }
}

/// The step after the constructor ran (its host error and gas usage, or
/// why it could not run; `None` where there is no constructor): the
/// effects are committed exactly when the constructor succeeded or there
/// is none; otherwise the installation fails with the constructor's error
/// and nothing is committed.
pub fn install_after_constructor<S, X>(
    gas_limit: u64,
    constructor: Option<Result<(Option<HostError>, GasUsage), X>>,
) -> (r: InstallStep<S, X>)
    ensures
        match installation_gas::<S, X>(gas_limit, constructor) {
            Ok(gas_usage) => r == InstallStep::<S, X>::Commit { gas_usage },
            Err(e) => r == InstallStep::<S, X>::Fail(e),
        },
        match constructor {
            None => r == InstallStep::<S, X>::Commit {
                gas_usage: GasUsage { gas_limit, remaining_points: gas_limit },
            },
            Some(Ok((Some(host_error), _))) => r == InstallStep::<S, X>::Fail(
                InstallContractError::Constructor { host_error },
            ),
            Some(Ok((None, gas_usage))) => r == InstallStep::<S, X>::Commit { gas_usage },
            Some(Err(x)) => r == InstallStep::<S, X>::Fail(InstallContractError::Execute(x)),
        },
{
    match constructor_gas(gas_limit, constructor) {
        Ok(gas_usage) => InstallStep::Commit { gas_usage },
        Err(e) => InstallStep::Fail(e),
    }
}

/// The result of an installation once its effects were committed (the
/// state hash after the commit, or the store's error): the new contract's
/// address, the gas used, the committed effects and the post-state hash;
/// a failed commit fails the installation with the store's error.
pub fn install_after_commit<S, X, E>(
    addr: Hash32,
    gas_usage: GasUsage,
    effects: E,
    commit: Result<Hash32, GlobalStateError<S>>,
) -> (r: Result<InstallContractResult<E>, InstallContractError<S, X>>)
    ensures
        r == match commit {
            Ok(h) => Ok(
                InstallContractResult { smart_contract_addr: addr, gas_usage, effects, post_state_hash: h },
            ),
            Err(e) => Err(InstallContractError::<S, X>::GlobalState(e)),
        },
{
    match commit {
        Ok(h) => Ok(InstallContractResult { smart_contract_addr: addr, gas_usage, effects, post_state_hash: h }),
        Err(e) => Err(InstallContractError::GlobalState(e)),
    }
}

/// The executor: its configuration, and the kinds of the executions under
/// way, the innermost last.
pub struct ExecutorV2 {
    pub config: ExecutorConfig,
    pub execution_stack: Vec<ExecutionKind>,
}

impl ExecutorV2 {
    /// Starts installing a contract on a state root, from what checking
    /// the root out gave: the state to install on, or the error that ends
    /// the installation (an unknown root, or the store's error) before
    /// anything is written or committed. The installation then writes the
    /// package and the byte code, asks the mint for the main purse and goes
    /// on with [`install_after_mint`].
    pub fn install_contract<T, S, X>(&self, checkout: Result<Option<T>, S>) -> (r: Result<T, InstallContractError<S, X>>)
        ensures
            r == match checkout {
                Ok(Some(t)) => Ok(t),
                Ok(None) => Err(InstallContractError::<S, X>::GlobalState(GlobalStateError::RootNotFound)),
                Err(e) => Err(InstallContractError::<S, X>::GlobalState(GlobalStateError::Other(e))),
            },
    {
        match checked_out(checkout) {
            Ok(t) => Ok(t),
            Err(e) => Err(InstallContractError::GlobalState(e)),
        }
    }

    /// An executor with the configuration and no execution under way.
    pub fn new(config: ExecutorConfig) -> (r: ExecutorV2)
        ensures
            r.config == config,
            r.execution_stack@ == Seq::<ExecutionKind>::empty(),
    {
        ExecutorV2 { config, execution_stack: Vec::new() }
    }

    /// Enters an execution.
    pub fn push_execution_stack(&mut self, kind: ExecutionKind)
        ensures
            final(self).execution_stack@ == old(self).execution_stack@.push(kind),
            final(self).config == old(self).config,
    {
        self.execution_stack.push(kind);
    }

    /// Leaves the innermost execution, giving its kind; `None` when no
    /// execution is under way.
    pub fn pop_execution_stack(&mut self) -> (r: Option<ExecutionKind>)
        ensures
            final(self).config == old(self).config,
            old(self).execution_stack@.len() == 0 ==> r is None && final(self).execution_stack@ == old(
                self,
            ).execution_stack@,
            old(self).execution_stack@.len() > 0 ==> r == Some(old(self).execution_stack@.last())
                && final(self).execution_stack@ == old(self).execution_stack@.drop_last(),
    {
        self.execution_stack.pop()
    }
}

/// Leaving an execution gives back the kind of the one just entered, and
/// the stack as it was.
pub proof fn law_pop_undoes_push(before: Seq<ExecutionKind>, kind: ExecutionKind)
    ensures
        before.push(kind).len() > 0,
        before.push(kind).last() == kind,
        before.push(kind).drop_last() == before,
{
    assert(before.push(kind).drop_last() =~= before);
}

/// Where the purse of an entity is found: here, or under another key whose
/// value is reported with [`purse_of_entity`].
#[derive(Copy, Clone, Debug, PartialEq, Eq)]
pub enum PurseStep {
    Found(URef),
    ReadEntity(StateKey),
}

/// Whether the value read under an entity's key leads to a purse: a key of
/// its entity, an account, or a package with a latest version.
pub open spec fn purse_readable(value: Option<StoredValue>) -> bool {
    match value {
        Some(StoredValue::KeyValue(_)) => true,
        Some(StoredValue::Account { .. }) => true,
        Some(StoredValue::SmartContract { latest_version }) => latest_version is Some,
        _ => false,
    }
}

/// The step after the value under the caller's key was read: an account
/// has its main purse; a key points to the entity; a package leads to its
/// latest version.
pub fn purse_after_read(value: Option<StoredValue>) -> (r: PurseStep)
    requires
        purse_readable(value),
    ensures
        value matches Some(StoredValue::Account { main_purse }) ==> r == PurseStep::Found(main_purse),
        value matches Some(StoredValue::KeyValue(key)) ==> r == PurseStep::ReadEntity(key),
        value matches Some(StoredValue::SmartContract { latest_version: Some(v) }) ==> r == PurseStep::ReadEntity(
            StateKey::AddressableEntity(EntityAddr::SmartContract(v)),
        ),
{
    match value {
        Some(StoredValue::Account { main_purse }) => PurseStep::Found(main_purse),
        Some(StoredValue::KeyValue(key)) => PurseStep::ReadEntity(key),
        Some(StoredValue::SmartContract { latest_version: Some(v) }) => PurseStep::ReadEntity(
            StateKey::AddressableEntity(EntityAddr::SmartContract(v)),
        ),
        _ => {
            proof {
                assert(false);
            }
            PurseStep::ReadEntity(StateKey::Account(Hash32 { bytes: [0u8; 32] }))
        },
    }
}

/// The main purse of the entity read after [`purse_after_read`].
pub fn purse_of_entity(value: Option<StoredValue>) -> (r: URef)
    requires
        value matches Some(StoredValue::AddressableEntity { .. }),
    ensures
        value matches Some(StoredValue::AddressableEntity { main_purse, .. }) && r == main_purse,
{
    match value {
        Some(StoredValue::AddressableEntity { main_purse, .. }) => main_purse,
        _ => {
            proof {
                assert(false);
            }
            URef { addr: Hash32 { bytes: [0u8; 32] }, access_rights: 0 }
        },
    }
}

/// What a contract installation gives: the new contract's address, the gas
/// its constructor used, the effects, and the state hash after committing
/// them.
#[derive(Clone, Debug, PartialEq, Eq)]
pub struct InstallContractResult<E> {
    pub smart_contract_addr: Hash32,
    pub gas_usage: GasUsage,
    pub effects: E,
    pub post_state_hash: Hash32,
}

/// What an execution on a state root gives once its effects are committed.
#[derive(Clone, Debug, PartialEq, Eq)]
pub struct ExecuteWithProviderResult<E> {
    pub host_error: Option<HostError>,
    pub output: Option<Vec<u8>>,
    pub gas_usage: GasUsage,
    pub effects: E,
    pub post_state_hash: Hash32,
}

} // verus!
