//! Turning a transaction into a request to the Wasm v2 executor: whether the
//! transaction installs a contract or executes code, with which entry point,
//! input and limits, or why no request can be made.
//!
//! The transaction's properties arrive as a [`WasmV2Input`]; the executor's
//! request builders are filled from the resulting [`WasmV2Plan`] outside.

use vstd::prelude::*;

use crate::executor::{ExecuteWithProviderResult, GasUsage, InstallContractResult};
use crate::hash32::Hash32;
use crate::lanes::TransactionEntryPoint;

verus! {

/// How a stored contract is addressed.
#[derive(Clone, Debug, PartialEq, Eq)]
pub enum InvocationTarget {
    /// By the address of the contract.
    ByHash([u8; 32]),
    /// By name or by package, which the executor does not support yet.
    Unsupported,
}

/// What a transaction targets, as far as the request depends on it.
#[derive(Clone, Debug, PartialEq, Eq)]
pub enum RequestTarget {
    /// The native system contracts.
    Native,
    /// A stored contract.
    Stored { id: InvocationTarget },
    /// Wasm shipped with the transaction, with an optional seed for the
    /// address of a contract it installs.
    Session { module_bytes: Vec<u8>, seed: Option<[u8; 32]> },
}

/// The properties of a transaction that decide its request.
#[derive(Clone, Debug, PartialEq, Eq)]
pub struct WasmV2Input {
    /// The gas limit, as the little-endian 64-bit words of a 512-bit number.
    pub gas_limit: [u64; 8],
    /// The session arguments, if they are given as serialized bytes.
    pub session_args_bytes: Option<Vec<u8>>,
    /// The transferred value, if there is one.
    pub transferred_value: Option<u64>,
    /// The target, if there is one.
    pub target: Option<RequestTarget>,
    pub entry_point: TransactionEntryPoint,
}

/// Why no request can be made of a transaction.
#[derive(Clone, Debug, PartialEq, Eq)]
pub enum InvalidRequest {
    ExpectedBytesArguments,
    ExpectedTarget,
    /// The gas limit does not fit in 64 bits.
    InvalidGasLimit([u64; 8]),
    ExpectedTransferredValue,
}

/// The code a request executes.
#[derive(Clone, Debug, PartialEq, Eq)]
pub enum ExecutionKind {
    /// Wasm shipped with the transaction.
    SessionBytes(Vec<u8>),
    /// An entry point of a stored contract.
    Stored { address: [u8; 32], entry_point: String },
}

/// The request to make of a transaction.
#[derive(Clone, Debug, PartialEq, Eq)]
pub enum WasmV2Plan {
    /// Install a contract; its constructor, if any, gets the input.
    Install {
        module_bytes: Vec<u8>,
        entry_point: Option<String>,
        input: Option<Vec<u8>>,
        seed: Option<[u8; 32]>,
        gas_limit: u64,
        transferred_value: u64,
    },
    /// Execute code.
    Execute { kind: ExecutionKind, input: Vec<u8>, gas_limit: u64, transferred_value: u64 },
}

/// Whether the 512-bit number fits in 64 bits.
pub open spec fn fits_u64(words: [u64; 8]) -> bool {
    forall|i: int| 1 <= i < 8 ==> #[trigger] words@[i] == 0
}

/// Whether the transaction is of a kind that the executor does not handle
/// yet: a native target, an entry point that does not suit the target, a
/// stored contract not addressed by its hash, or an installation without a
/// constructor that still carries input.
pub open spec fn unsupported(input: WasmV2Input) -> bool {
    match input.target {
        Some(RequestTarget::Native) => true,
        Some(RequestTarget::Stored { id }) => !(input.entry_point is Custom) || !(id is ByHash),
        Some(RequestTarget::Session { .. }) => match input.entry_point {
            TransactionEntryPoint::Call => false,
            TransactionEntryPoint::Custom(ep) => ep@.len() == 0 && match input.session_args_bytes {
                Some(b) => b@.len() != 0,
                None => false,
            },
            _ => true,
        },
        None => false,
    }
}

/// The request the transaction calls for.
pub open spec fn wasm_v2_plan(input: WasmV2Input) -> Result<WasmV2Plan, InvalidRequest> {
    if !fits_u64(input.gas_limit) {
        Err(InvalidRequest::InvalidGasLimit(input.gas_limit))
    } else if input.session_args_bytes is None {
        Err(InvalidRequest::ExpectedBytesArguments)
    } else if input.transferred_value is None {
        Err(InvalidRequest::ExpectedTransferredValue)
    } else if input.target is None {
        Err(InvalidRequest::ExpectedTarget)
    } else {
        let gas_limit = input.gas_limit@[0];
        let args = input.session_args_bytes.unwrap();
        let value = input.transferred_value.unwrap();
        match input.target.unwrap() {
            RequestTarget::Session { module_bytes, seed } => match input.entry_point {
                TransactionEntryPoint::Custom(ep) => Ok(
                    WasmV2Plan::Install {
                        module_bytes,
                        entry_point: if ep@.len() == 0 {
                            None
                        } else {
                            Some(ep)
                        },
                        input: if ep@.len() == 0 {
                            None
                        } else {
                            Some(args)
                        },
                        seed,
                        gas_limit,
                        transferred_value: value,
                    },
                ),
                _ => Ok(
                    WasmV2Plan::Execute {
                        kind: ExecutionKind::SessionBytes(module_bytes),
                        input: args,
                        gas_limit,
                        transferred_value: value,
                    },
                ),
            },
            RequestTarget::Stored { id: InvocationTarget::ByHash(address) } => match input.entry_point {
                TransactionEntryPoint::Custom(ep) => Ok(
                    WasmV2Plan::Execute {
                        kind: ExecutionKind::Stored { address, entry_point: ep },
                        input: args,
                        gas_limit,
                        transferred_value: value,
                    },
                ),
                _ => Err(InvalidRequest::ExpectedTarget),
            },
            _ => Err(InvalidRequest::ExpectedTarget),
        }
    }
}

/// Decides the request of a transaction, or why it cannot be made. A
/// transaction of a kind the executor does not handle yet is left out only
/// once the gas limit, the arguments, the transferred value and the target
/// have passed their checks.
pub fn plan_wasm_v2_request(input: WasmV2Input) -> (r: Result<WasmV2Plan, InvalidRequest>)
    requires
        fits_u64(input.gas_limit) && input.session_args_bytes is Some && input.transferred_value is Some
            && input.target is Some ==> !unsupported(input),
    ensures
        r == wasm_v2_plan(input),
{
    let mut k: usize = 1;
    while k < 8
        invariant
            1 <= k <= 8,
            forall|i: int| 1 <= i < k ==> #[trigger] input.gas_limit@[i] == 0,
        decreases 8 - k,
    {
        if input.gas_limit[k] != 0 {
            return Err(InvalidRequest::InvalidGasLimit(input.gas_limit));
        }
        k += 1;
    }
    let gas_limit = input.gas_limit[0];
    let args = match input.session_args_bytes {
        Some(b) => b,
        None => return Err(InvalidRequest::ExpectedBytesArguments),
    };
    let value = match input.transferred_value {
        Some(v) => v,
        None => return Err(InvalidRequest::ExpectedTransferredValue),
    };
    let target = match input.target {
        Some(t) => t,
        None => return Err(InvalidRequest::ExpectedTarget),
    };
    match target {
        RequestTarget::Session { module_bytes, seed } => match input.entry_point {
            TransactionEntryPoint::Custom(ep) => {
                if ep.as_str().unicode_len() == 0 {
                    Ok(
                        WasmV2Plan::Install {
                            module_bytes,
                            entry_point: None,
                            input: None,
                            seed,
                            gas_limit,
                            transferred_value: value,
                        },
                    )
                } else {
                    Ok(
                        WasmV2Plan::Install {
                            module_bytes,
                            entry_point: Some(ep),
                            input: Some(args),
                            seed,
                            gas_limit,
                            transferred_value: value,
                        },
                    )
                }
            },
            _ => Ok(
                WasmV2Plan::Execute {
                    kind: ExecutionKind::SessionBytes(module_bytes),
                    input: args,
                    gas_limit,
                    transferred_value: value,
                },
            ),
        },
        RequestTarget::Stored { id: InvocationTarget::ByHash(address) } => match input.entry_point {
            TransactionEntryPoint::Custom(ep) => Ok(
                WasmV2Plan::Execute {
                    kind: ExecutionKind::Stored { address, entry_point: ep },
                    input: args,
                    gas_limit,
                    transferred_value: value,
                },
            ),
            _ => Err(InvalidRequest::ExpectedTarget),
        },
        _ => Err(InvalidRequest::ExpectedTarget),
    }
}

/// The result of a request to the second virtual machine.
#[derive(Clone, Debug, PartialEq, Eq)]
pub enum WasmV2Result<E> {
    Install(InstallContractResult<E>),
    Execute(ExecuteWithProviderResult<E>),
}

impl<E> WasmV2Result<E> {
    /// The state hash after the effects were committed.
    pub open spec fn spec_post_state_hash(&self) -> Hash32 {
        match self {
            WasmV2Result::Install(r) => r.post_state_hash,
            WasmV2Result::Execute(r) => r.post_state_hash,
        }
    }

    /// The state root hash after the contract ran.
    pub fn state_root_hash(&self) -> (r: Hash32)
        ensures
            r == self.spec_post_state_hash(),
    {
        match self {
            WasmV2Result::Install(r) => r.post_state_hash,
            WasmV2Result::Execute(r) => r.post_state_hash,
        }
    }

    /// The gas the contract used.
    pub fn gas_usage(&self) -> (r: &GasUsage)
        ensures
            *r == match self {
                WasmV2Result::Install(res) => res.gas_usage,
                WasmV2Result::Execute(res) => res.gas_usage,
            },
    {
        match self {
            WasmV2Result::Install(r) => &r.gas_usage,
            WasmV2Result::Execute(r) => &r.gas_usage,
        }
    }

    /// The effects of the run.
    pub fn effects(&self) -> (r: &E)
        ensures
            *r == match self {
                WasmV2Result::Install(res) => res.effects,
                WasmV2Result::Execute(res) => res.effects,
            },
    {
        match self {
            WasmV2Result::Install(r) => &r.effects,
            WasmV2Result::Execute(r) => &r.effects,
        }
    }

    /// The address of the installed contract; none for an execution.
    pub fn smart_contract_addr(&self) -> (r: Option<&Hash32>)
        ensures
            match self {
                WasmV2Result::Install(res) => r == Some(&res.smart_contract_addr),
                WasmV2Result::Execute(_) => r is None,
            },
    {
        match self {
            WasmV2Result::Install(r) => Some(&r.smart_contract_addr),
            WasmV2Result::Execute(_) => None,
        }
    }

    /// The state hash after the effects were committed.
    pub fn post_state_hash(&self) -> (r: Hash32)
        ensures
            r == self.spec_post_state_hash(),
    {
        match self {
            WasmV2Result::Install(r) => r.post_state_hash,
            WasmV2Result::Execute(r) => r.post_state_hash,
        }
    }
}

} // verus!
