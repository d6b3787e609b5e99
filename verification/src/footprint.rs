//! The block footprint of a transaction: what a block proposer needs to
//! know of it to decide whether it fits into a block.
//!
//! The facts are read off the transaction (its hashes, its serialized
//! length, the gas limit its pricing mode gives under the chainspec's cost
//! table, which may be unknown) and arrive here as plain values.

use vstd::prelude::*;

use crate::hash32::Hash32;

verus! {

/// The hash identifying a transaction, by its kind.
#[derive(Copy, Clone, Debug, PartialEq, Eq)]
pub enum TransactionHash {
    Deploy(Hash32),
    V1(Hash32),
}

/// The category of a transaction, which decides the lane it is counted in.
#[derive(Copy, Clone, Debug, PartialEq, Eq, Structural)]
pub enum TransactionCategory {
    Mint,
    Auction,
    InstallUpgrade,
    Standard,
}

/// An approval of a transaction: a signer and its signature.
#[derive(Clone, Debug, PartialEq, Eq)]
pub struct Approval {
    pub signer: Vec<u8>,
    pub signature: Vec<u8>,
}

/// What is read off a transaction to compute its footprint.
#[derive(Clone, Debug)]
pub struct TransactionFacts {
    pub transaction_hash: TransactionHash,
    pub body_hash: Hash32,
    /// The gas limit at a gas price multiple of one, if it can be determined.
    pub gas_limit: Option<u64>,
    pub serialized_length: usize,
    pub category: TransactionCategory,
    pub timestamp: u64,
    pub ttl: u64,
    pub approvals: Vec<Approval>,
}

/// The block footprint of a transaction.
#[derive(Clone, Debug)]
pub struct TransactionFootprint {
    pub transaction_hash: TransactionHash,
    pub body_hash: Hash32,
    pub gas_limit: u64,
    pub size_estimate: usize,
    pub category: TransactionCategory,
    pub timestamp: u64,
    pub ttl: u64,
    pub approvals: Vec<Approval>,
}

/// The footprint of a transaction with these facts; none if its gas limit
/// cannot be determined.
pub fn footprint(facts: &TransactionFacts) -> (r: Option<TransactionFootprint>)
    ensures
        facts.gas_limit is None <==> r is None,
        r matches Some(f) ==> {
            &&& Some(f.gas_limit) == facts.gas_limit
            &&& f.transaction_hash == facts.transaction_hash
            &&& f.body_hash == facts.body_hash
            &&& f.size_estimate == facts.serialized_length
            &&& f.category == facts.category
            &&& f.timestamp == facts.timestamp
            &&& f.ttl == facts.ttl
            &&& f.approvals@.len() == facts.approvals@.len()
            &&& forall|i: int| 0 <= i < f.approvals@.len() ==> cloned::<Approval>(
                facts.approvals@[i],
                #[trigger] f.approvals@[i],
            )
        },
{
    match facts.gas_limit {
        None => None,
        Some(gas_limit) => Some(
            TransactionFootprint {
                transaction_hash: facts.transaction_hash,
                body_hash: facts.body_hash,
                gas_limit,
                size_estimate: facts.serialized_length,
                category: facts.category,
                timestamp: facts.timestamp,
                ttl: facts.ttl,
                approvals: facts.approvals.clone(),
            },
        ),
    }
}

impl TransactionFootprint {
    /// The footprint with these approvals.
    pub fn with_approvals(self, approvals: Vec<Approval>) -> (r: Self)
        ensures
            r.approvals@ == approvals@,
            r.transaction_hash == self.transaction_hash,
            r.body_hash == self.body_hash,
            r.gas_limit == self.gas_limit,
            r.size_estimate == self.size_estimate,
            r.category == self.category,
            r.timestamp == self.timestamp,
            r.ttl == self.ttl,
    {
        let mut s = self;
        s.approvals = approvals;
        s
    }

    /// The number of approvals.
    pub fn approvals_count(&self) -> (r: usize)
        ensures
            r == self.approvals@.len(),
    {
        self.approvals.len()
    }

    /// Whether the transaction interacts with the mint.
    pub fn is_mint(&self) -> (r: bool)
        ensures
            r == (self.category == TransactionCategory::Mint),
    {
        self.category == TransactionCategory::Mint
    }

    /// Whether the transaction interacts with the auction.
    pub fn is_auction(&self) -> (r: bool)
        ensures
            r == (self.category == TransactionCategory::Auction),
    {
        self.category == TransactionCategory::Auction
    }

    /// Whether the transaction is a standard one.
    pub fn is_standard(&self) -> (r: bool)
        ensures
            r == (self.category == TransactionCategory::Standard),
    {
        self.category == TransactionCategory::Standard
    }

    /// Whether the transaction installs or upgrades a contract.
    pub fn is_install_upgrade(&self) -> (r: bool)
        ensures
            r == (self.category == TransactionCategory::InstallUpgrade),
    {
        self.category == TransactionCategory::InstallUpgrade
    }
}

} // verus!
