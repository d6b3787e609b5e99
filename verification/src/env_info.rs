//! The information about its environment that a contract gets from the host.

use vstd::prelude::*;

verus! {

/// What the host tells a contract about its environment.
#[derive(Clone, Copy, Debug, PartialEq, Eq)]
pub struct EnvInfo {
    pub block_time: u64,
    pub transferred_value: u64,
    pub balance: u64,
    pub caller_id: [u8; 32],
    pub entity_kind: u32,
}

} // verus!
