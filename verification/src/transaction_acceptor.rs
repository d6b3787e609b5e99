//! The decisions of the transaction acceptor, which checks every new
//! transaction as far as possible before the node stores and announces it.
//!
//! Checking a transaction takes several reads of global state. Each decision
//! below takes what the previous read gave back and says what to do next:
//! reject the transaction, read something more, or go on to the
//! cryptographic checks and storage. The node performs the reads and feeds
//! their outcomes back.

use vstd::prelude::*;

use crate::execution_kind::{EntityAddr, EntityVersionKey, Package};
use crate::hash32::Hash32;
use crate::lanes::TransactionEntryPoint;

verus! {

/// The entry point of a stored contract called without a named one.
pub const DEFAULT_ENTRY_POINT_NAME: &'static str = "call";

/// Where a transaction came from.
#[derive(Copy, Clone, Debug, PartialEq, Eq, Structural)]
pub enum Source {
    /// Fetched from a peer.
    Peer(u64),
    /// Gossiped by a peer.
    PeerGossiped(u64),
    /// Sent by a client.
    Client,
    /// Sent for speculative execution.
    SpeculativeExec,
}

impl Source {
    /// Whether a client sent the transaction.
    pub open spec fn spec_is_client(self) -> bool {
        self is Client || self is SpeculativeExec
    }

    /// Whether a client sent the transaction.
    pub fn is_client(&self) -> (r: bool)
        ensures
            r == self.spec_is_client(),
    {
        matches!(self, Source::Client | Source::SpeculativeExec)
    }
}

/// The amount argument of standard payment.
#[derive(Copy, Clone, Debug, PartialEq, Eq, Structural)]
pub enum AmountArg {
    Missing,
    Unparsable,
    Valid,
}

/// What kind of executable item a deploy's payment or session is.
#[derive(Copy, Clone, Debug, PartialEq, Eq, Structural)]
pub enum DeployItemKind {
    /// A transfer, and whether it names a target.
    Transfer { has_target: bool },
    /// Wasm bytes, whether there are none, and the payment amount argument.
    ModuleBytes { is_empty: bool, amount: AmountArg },
    StoredContractByHash,
    StoredContractByName,
    StoredVersionedContractByHash { version: Option<u32> },
    StoredVersionedContractByName { version: Option<u32> },
}

/// How an item addresses an entity.
#[derive(Clone, Debug, PartialEq, Eq)]
pub enum EntityIdentifier {
    Hash(Hash32),
    Addr(EntityAddr),
    Name(String),
}

/// How an item addresses a package.
#[derive(Clone, Debug, PartialEq, Eq)]
pub enum PackageIdentifier {
    Hash { package_hash: Hash32, version: Option<u32> },
    HashWithVersion { package_hash: Hash32, version_key: EntityVersionKey },
    Name { name: String, version: Option<u32> },
    NameWithVersion { name: String, version_key: EntityVersionKey },
}

/// What an executable item runs.
#[derive(Clone, Debug, PartialEq, Eq)]
pub enum ItemIdentifier {
    Module,
    Transfer,
    AddressableEntity(EntityIdentifier),
    Package(PackageIdentifier),
}

/// A deploy's payment or session item.
#[derive(Clone, Debug, PartialEq, Eq)]
pub struct DeployItem {
    pub kind: DeployItemKind,
    pub identifier: ItemIdentifier,
    pub entry_point_name: String,
}

/// How a version 1 transaction addresses a stored contract.
#[derive(Copy, Clone, Debug, PartialEq, Eq)]
pub enum V1Invocation {
    ByHash(Hash32),
    ByName,
    ByPackageHash { addr: Hash32, version: Option<u32>, version_key: Option<EntityVersionKey> },
    ByPackageName { version: Option<u32> },
}

/// What a version 1 transaction targets.
#[derive(Copy, Clone, Debug, PartialEq, Eq)]
pub enum V1Target {
    Native,
    Session,
    Stored(V1Invocation),
}

/// The parts of a transaction that the acceptor's decisions read.
#[derive(Clone, Debug, PartialEq, Eq)]
pub enum TransactionFacts {
    Deploy { payment: DeployItem, session: DeployItem },
    V1 { target: V1Target, entry_point: TransactionEntryPoint },
}

/// Why the parameters of a transaction fail against global state.
#[derive(Clone, Debug, PartialEq, Eq)]
pub enum ParameterFailure {
    NoSuchAddressableEntity,
    InsufficientBalance,
    UnknownBalance,
    InvalidAssociatedKeys,
    InsufficientSignatureWeight,
    NoSuchContractAtHash { contract_hash: Hash32 },
    NoSuchPackageAtHash { package_hash: Hash32 },
    MissingEntityAtVersion { entity_version_key: EntityVersionKey },
    DisabledEntityAtVersion { entity_version_key: EntityVersionKey },
    InvalidEntityAtVersion { entity_version_key: EntityVersionKey },
    NoSuchEntryPoint { entry_point_name: String },
    InvalidPaymentVariant,
    FailedToParsePaymentAmount,
    MissingPaymentAmount,
    MissingTransferTarget,
    MissingModuleBytes,
}

/// Why a transaction is rejected.
#[derive(Clone, Debug, PartialEq, Eq)]
pub enum AcceptorError {
    /// No block is stored yet.
    EmptyBlockchain,
    /// The parameters fail against the global state with this root hash.
    Parameters { state_root_hash: Hash32, failure: ParameterFailure },
    /// A deploy targets a package version, which is not supported.
    DeployTargetingPackageVersionNotSupported,
    /// A version 1 transaction targets a package version, which is not supported.
    V1TargetingPackageVersionNotSupported,
    /// Installing or upgrading v2 wasm needs a seed.
    MissingSeed,
    /// The transaction is invalid on its own; the words say why.
    InvalidTransaction(String),
    /// The transaction expired before it was received.
    Expired { expiry_timestamp: u64, current_node_timestamp: u64 },
    /// A deploy was expected.
    ExpectedDeploy,
    /// A version 1 transaction was expected.
    ExpectedTransactionV1,
}

/// What the acceptor does next.
#[derive(Clone, Debug, PartialEq, Eq)]
pub enum Step {
    /// Reject the transaction: answer the client, if any, and announce it invalid.
    Reject(AcceptorError),
    /// Read the highest complete block header.
    GetBlockHeader,
    /// Read the entity of the transaction's initiator account.
    GetInitiatorEntity,
    /// Read the balance of the entity's main purse.
    GetBalance,
    /// Read an entity, to check it as the initiator's.
    GetEntity { entity_addr: EntityAddr },
    /// Read a stored contract.
    GetContract { contract_hash: Hash32, is_payment: bool },
    /// Read a package, and the entity at a version if one is given.
    GetPackage { package_hash: Hash32, version_key: Option<EntityVersionKey>, is_payment: bool },
    /// Ask whether the contract has the entry point.
    GetEntryPoint { contract_hash: Hash32, entry_point_name: String, is_payment: bool },
    /// Check the transaction's signatures.
    ValidateCryptography,
    /// Stop the node: a peer's transaction reached a balance check.
    Fatal,
}

/// What to do once the transaction has passed every check.
#[derive(Copy, Clone, Debug, PartialEq, Eq, Structural)]
pub enum Acceptance {
    /// Answer the client that the transaction is fine, and keep nothing.
    RespondOnly,
    /// Store the transaction; the outcome comes back.
    PutToStorage,
}

/// What to do once the transaction is stored.
#[derive(Copy, Clone, Debug, PartialEq, Eq, Structural)]
pub struct Stored {
    /// Announce the transaction as newly accepted.
    pub announce: bool,
    /// Store its approvals as finalized; the outcome comes back, and nothing else is done now.
    pub store_finalized_approvals: bool,
    /// Answer the client that the transaction is accepted.
    pub respond: bool,
}

/// The kind of an entity.
#[derive(Copy, Clone, Debug, PartialEq, Eq, Structural)]
pub enum EntityKind {
    System,
    Account,
    SmartContractV1,
    SmartContractV2,
}

/// A 512-bit unsigned number, as little-endian 64-bit words.
#[derive(Copy, Clone, Debug, PartialEq, Eq)]
pub struct U512 {
    pub words: [u64; 8],
}

/// Whether `a` is at least `b`, comparing from the most significant word down,
/// from word `i - 1` on.
pub open spec fn words_ge(a: [u64; 8], b: [u64; 8], i: int) -> bool
    decreases i,
{
    if i <= 0 {
        true
    } else if a@[i - 1] != b@[i - 1] {
        a@[i - 1] > b@[i - 1]
    } else {
        words_ge(a, b, i - 1)
    }
}

impl U512 {
    /// Whether this number is at least `other`.
    pub open spec fn spec_ge(self, other: U512) -> bool {
        words_ge(self.words, other.words, 8)
    }

    /// Whether this number is at least `other`.
    pub fn ge(&self, other: &U512) -> (r: bool)
        ensures
            r == self.spec_ge(*other),
    {
        let mut i: usize = 8;
        while i > 0
            invariant
                i <= 8,
                words_ge(self.words, other.words, 8) == words_ge(self.words, other.words, i as int),
            decreases i,
        {
            let a = self.words[i - 1];
            let b = other.words[i - 1];
            if a != b {
                return a > b;
            }
            i -= 1;
        }
        true
    }
}

/// Whether some administrator signed the transaction.
pub open spec fn signed_by_administrator(administrators: Seq<Hash32>, signers: Seq<Hash32>) -> bool {
    exists|i: int, j: int| 0 <= i < administrators.len() && 0 <= j < signers.len() && administrators[i] == signers[j]
}

/// The outcome of checking the initiator's authorization.
pub open spec fn authorization(
    administrators: Seq<Hash32>,
    signers: Seq<Hash32>,
    can_authorize: bool,
    can_deploy_with: bool,
) -> Result<(), ParameterFailure> {
    if signed_by_administrator(administrators, signers) {
        Ok(())
    } else if !can_authorize {
        Err(ParameterFailure::InvalidAssociatedKeys)
    } else if !can_deploy_with {
        Err(ParameterFailure::InsufficientSignatureWeight)
    } else {
        Ok(())
    }
}

/// Checks the initiator's authorization: the transaction is authorized if an
/// administrator signed it; otherwise the signers must be able to authorize
/// for the entity (`can_authorize`) and carry the weight to deploy
/// (`can_deploy_with`).
pub fn is_authorized_entity(
    administrators: &Vec<Hash32>,
    signers: &Vec<Hash32>,
    can_authorize: bool,
    can_deploy_with: bool,
) -> (r: Result<(), ParameterFailure>)
    ensures
        r == authorization(administrators@, signers@, can_authorize, can_deploy_with),
{
    let mut i: usize = 0;
    while i < administrators.len()
        invariant
            i <= administrators@.len(),
            forall|a: int, j: int|
                0 <= a < i && 0 <= j < signers@.len() ==> administrators@[a] != signers@[j],
        decreases administrators@.len() - i,
    {
        let mut j: usize = 0;
        while j < signers.len()
            invariant
                i < administrators@.len(),
                j <= signers@.len(),
                forall|a: int, k: int|
                    0 <= a < i && 0 <= k < signers@.len() ==> administrators@[a] != signers@[k],
                forall|k: int| 0 <= k < j ==> administrators@[i as int] != signers@[k],
            decreases signers@.len() - j,
        {
            if administrators[i].same_as(&signers[j]) {
                return Ok(());
            }
            j += 1;
        }
        i += 1;
    }
    if !can_authorize {
        return Err(ParameterFailure::InvalidAssociatedKeys);
    }
    if !can_deploy_with {
        return Err(ParameterFailure::InsufficientSignatureWeight);
    }
    Ok(())
}

/// A parameter failure against the given state root.
pub open spec fn failure_at(state_root_hash: Hash32, failure: ParameterFailure) -> Step {
    Step::Reject(AcceptorError::Parameters { state_root_hash, failure })
}

/// The outcome of checking a deploy's payment item on its own.
pub open spec fn payment_check(payment: DeployItemKind, state_root_hash: Hash32) -> Result<(), AcceptorError> {
    match payment {
        DeployItemKind::Transfer { .. } => Err(
            AcceptorError::Parameters { state_root_hash, failure: ParameterFailure::InvalidPaymentVariant },
        ),
        DeployItemKind::ModuleBytes { is_empty, amount } => if is_empty {
            match amount {
                AmountArg::Valid => Ok(()),
                AmountArg::Unparsable => Err(
                    AcceptorError::Parameters {
                        state_root_hash,
                        failure: ParameterFailure::FailedToParsePaymentAmount,
                    },
                ),
                AmountArg::Missing => Err(
                    AcceptorError::Parameters { state_root_hash, failure: ParameterFailure::MissingPaymentAmount },
                ),
            }
        } else {
            Ok(())
        },
        DeployItemKind::StoredVersionedContractByHash { version }
        | DeployItemKind::StoredVersionedContractByName { version } => if version is Some {
            Err(AcceptorError::DeployTargetingPackageVersionNotSupported)
        } else {
            Ok(())
        },
        _ => Ok(()),
    }
}

/// Checks a deploy's payment item on its own: a transfer cannot pay, and
/// standard payment (empty module bytes) needs a valid amount argument.
pub fn deploy_payment_is_valid(payment: &DeployItemKind, state_root_hash: Hash32) -> (r: Result<(), AcceptorError>)
    ensures
        r == payment_check(*payment, state_root_hash),
{
    match payment {
        DeployItemKind::Transfer { .. } => Err(
            AcceptorError::Parameters { state_root_hash, failure: ParameterFailure::InvalidPaymentVariant },
        ),
        DeployItemKind::ModuleBytes { is_empty, amount } => {
            if *is_empty {
                match amount {
                    AmountArg::Valid => Ok(()),
                    AmountArg::Unparsable => Err(
                        AcceptorError::Parameters {
                            state_root_hash,
                            failure: ParameterFailure::FailedToParsePaymentAmount,
                        },
                    ),
                    AmountArg::Missing => Err(
                        AcceptorError::Parameters {
                            state_root_hash,
                            failure: ParameterFailure::MissingPaymentAmount,
                        },
                    ),
                }
            } else {
                Ok(())
            }
        },
        DeployItemKind::StoredVersionedContractByHash { version }
        | DeployItemKind::StoredVersionedContractByName { version } => {
            if version.is_some() {
                Err(AcceptorError::DeployTargetingPackageVersionNotSupported)
            } else {
                Ok(())
            }
        },
        _ => Ok(()),
    }
}

/// The step for an item's identifier: items addressed by name, modules and
/// transfers need no read (`next`), while items addressed by hash are read.
pub open spec fn identifier_step(identifier: ItemIdentifier, is_payment: bool, next: Step) -> Step {
    match identifier {
        ItemIdentifier::Module | ItemIdentifier::Transfer => next,
        ItemIdentifier::AddressableEntity(EntityIdentifier::Name(_)) => next,
        ItemIdentifier::Package(PackageIdentifier::NameWithVersion { .. }) => next,
        ItemIdentifier::Package(PackageIdentifier::Name { version, .. }) => if version is Some {
            Step::Reject(AcceptorError::DeployTargetingPackageVersionNotSupported)
        } else {
            next
        },
        ItemIdentifier::AddressableEntity(EntityIdentifier::Hash(contract_hash)) => Step::GetContract {
            contract_hash,
            is_payment,
        },
        ItemIdentifier::AddressableEntity(EntityIdentifier::Addr(entity_addr)) => Step::GetEntity { entity_addr },
        ItemIdentifier::Package(PackageIdentifier::Hash { package_hash, version }) => if version is Some {
            Step::Reject(AcceptorError::DeployTargetingPackageVersionNotSupported)
        } else {
            Step::GetPackage { package_hash, version_key: None, is_payment }
        },
        ItemIdentifier::Package(PackageIdentifier::HashWithVersion { package_hash, version_key }) => Step::GetPackage {
            package_hash,
            version_key: Some(version_key),
            is_payment,
        },
    }
}

/// The step for an item's identifier.
fn step_for_identifier(identifier: &ItemIdentifier, is_payment: bool, next: Step) -> (r: Step)
    ensures
        r == identifier_step(*identifier, is_payment, next),
{
    match identifier {
        ItemIdentifier::Module | ItemIdentifier::Transfer => next,
        ItemIdentifier::AddressableEntity(EntityIdentifier::Name(_)) => next,
        ItemIdentifier::Package(PackageIdentifier::NameWithVersion { .. }) => next,
        ItemIdentifier::Package(PackageIdentifier::Name { version, .. }) => {
            if version.is_some() {
                Step::Reject(AcceptorError::DeployTargetingPackageVersionNotSupported)
            } else {
                next
            }
        },
        ItemIdentifier::AddressableEntity(EntityIdentifier::Hash(contract_hash)) => Step::GetContract {
            contract_hash: *contract_hash,
            is_payment,
        },
        ItemIdentifier::AddressableEntity(EntityIdentifier::Addr(entity_addr)) => Step::GetEntity {
            entity_addr: *entity_addr,
        },
        ItemIdentifier::Package(PackageIdentifier::Hash { package_hash, version }) => {
            if version.is_some() {
                Step::Reject(AcceptorError::DeployTargetingPackageVersionNotSupported)
            } else {
                Step::GetPackage { package_hash: *package_hash, version_key: None, is_payment }
            }
        },
        ItemIdentifier::Package(PackageIdentifier::HashWithVersion { package_hash, version_key }) => Step::GetPackage {
            package_hash: *package_hash,
            version_key: Some(*version_key),
            is_payment,
        },
    }
}

/// The checks of a deploy's session item on its own.
pub open spec fn session_check(session: DeployItemKind, state_root_hash: Hash32) -> Option<Step> {
    match session {
        DeployItemKind::Transfer { has_target } => if !has_target {
            Some(failure_at(state_root_hash, ParameterFailure::MissingTransferTarget))
        } else {
            None
        },
        DeployItemKind::ModuleBytes { is_empty, .. } => if is_empty {
            Some(failure_at(state_root_hash, ParameterFailure::MissingModuleBytes))
        } else {
            None
        },
        DeployItemKind::StoredVersionedContractByHash { version }
        | DeployItemKind::StoredVersionedContractByName { version } => if version is Some {
            Some(Step::Reject(AcceptorError::DeployTargetingPackageVersionNotSupported))
        } else {
            None
        },
        _ => None,
    }
}

/// The step after the payment: a deploy's session, or a version 1 body.
pub open spec fn body_step(txn: TransactionFacts, state_root_hash: Hash32) -> Step {
    match txn {
        TransactionFacts::Deploy { session, .. } => match session_check(session.kind, state_root_hash) {
            Some(step) => step,
            None => identifier_step(session.identifier, false, Step::ValidateCryptography),
        },
        TransactionFacts::V1 { target, .. } => v1_body_step(target),
    }
}

/// The step that checks a version 1 transaction's target.
pub open spec fn v1_body_step(target: V1Target) -> Step {
    match target {
        V1Target::Stored(V1Invocation::ByHash(addr)) => Step::GetContract { contract_hash: addr, is_payment: false },
        V1Target::Stored(V1Invocation::ByPackageHash { addr, version, version_key }) => if version is Some {
            Step::Reject(AcceptorError::V1TargetingPackageVersionNotSupported)
        } else {
            Step::GetPackage { package_hash: addr, version_key, is_payment: false }
        },
        V1Target::Stored(V1Invocation::ByPackageName { version }) => if version is Some {
            Step::Reject(AcceptorError::V1TargetingPackageVersionNotSupported)
        } else {
            Step::ValidateCryptography
        },
        _ => Step::ValidateCryptography,
    }
}

/// The step that checks the payment: only deploys have payment code.
pub open spec fn payment_step(txn: TransactionFacts, state_root_hash: Hash32) -> Step {
    match txn {
        TransactionFacts::Deploy { payment, .. } => match payment_check(payment.kind, state_root_hash) {
            Err(e) => Step::Reject(e),
            Ok(()) => identifier_step(payment.identifier, true, body_step(txn, state_root_hash)),
        },
        TransactionFacts::V1 { .. } => body_step(txn, state_root_hash),
    }
}

/// The name of the entry point to look for in a contract read for the
/// payment (`is_payment`) or the body; `None` if there is none to check.
pub open spec fn entry_point_to_check(txn: TransactionFacts, is_payment: bool) -> Option<Seq<char>> {
    match txn {
        TransactionFacts::Deploy { payment, session } => if is_payment {
            Some(payment.entry_point_name@)
        } else {
            Some(session.entry_point_name@)
        },
        TransactionFacts::V1 { entry_point, .. } => if is_payment {
            None
        } else {
            match entry_point {
                TransactionEntryPoint::Call => Some(DEFAULT_ENTRY_POINT_NAME@),
                TransactionEntryPoint::Custom(name) => Some(name@),
                _ => None,
            }
        },
    }
}

/// The step after reading a contract.
pub open spec fn contract_result_step(
    txn: TransactionFacts,
    state_root_hash: Hash32,
    is_payment: bool,
    contract_hash: Hash32,
    contract_found: bool,
) -> Option<Step> {
    if !contract_found {
        Some(failure_at(state_root_hash, ParameterFailure::NoSuchContractAtHash { contract_hash }))
    } else {
        match entry_point_to_check(txn, is_payment) {
            Some(_) => None,
            None => Some(
                if is_payment {
                    body_step(txn, state_root_hash)
                } else {
                    Step::ValidateCryptography
                },
            ),
        }
    }
}

/// The configured state of the acceptor.
pub struct TransactionAcceptor {
    /// The account hashes of the administrators.
    pub administrators: Vec<Hash32>,
    /// The balance an initiator needs at least.
    pub baseline_motes: U512,
}

impl TransactionAcceptor {
    /// The first checks of a new transaction: it must convert to a meta
    /// transaction under the chainspec (`meta_transaction`, done outside,
    /// with the conversion's error); one that installs or upgrades v2 wasm
    /// needs a seed; then it must comply with the chainspec (`compliance`,
    /// checked outside); a client's must not have expired.
    pub fn accept(
        &self,
        meta_transaction: Result<(), String>,
        install_or_upgrade_v2_without_seed: bool,
        compliance: Result<(), String>,
        source: Source,
        expired: bool,
        expiry_timestamp: u64,
        current_node_timestamp: u64,
    ) -> (r: Step)
        ensures
            r == if meta_transaction is Err {
                Step::Reject(AcceptorError::InvalidTransaction(meta_transaction->Err_0))
            } else if install_or_upgrade_v2_without_seed {
                Step::Reject(AcceptorError::MissingSeed)
            } else if compliance is Err {
                Step::Reject(AcceptorError::InvalidTransaction(compliance->Err_0))
            } else if source.spec_is_client() && expired {
                Step::Reject(AcceptorError::Expired { expiry_timestamp, current_node_timestamp })
            } else {
                Step::GetBlockHeader
            },
    {
        match meta_transaction {
            Err(e) => return Step::Reject(AcceptorError::InvalidTransaction(e)),
            Ok(()) => {},
        }
        if install_or_upgrade_v2_without_seed {
            return Step::Reject(AcceptorError::MissingSeed);
        }
        match compliance {
            Err(e) => return Step::Reject(AcceptorError::InvalidTransaction(e)),
            Ok(()) => {},
        }
        if source.is_client() && expired {
            return Step::Reject(AcceptorError::Expired { expiry_timestamp, current_node_timestamp });
        }
        Step::GetBlockHeader
    }

    /// After reading the highest block header (`None` if there is none):
    /// a client's transaction has its initiator checked, a peer's goes on to
    /// the payment.
    pub fn handle_get_block_header_result(
        &self,
        txn: &TransactionFacts,
        source: Source,
        state_root_hash: Option<Hash32>,
    ) -> (r: Step)
        ensures
            r == match state_root_hash {
                None => Step::Reject(AcceptorError::EmptyBlockchain),
                Some(root) => if source.spec_is_client() {
                    Step::GetInitiatorEntity
                } else {
                    payment_step(*txn, root)
                },
            },
    {
        match state_root_hash {
            None => Step::Reject(AcceptorError::EmptyBlockchain),
            Some(root) => {
                if source.is_client() {
                    Step::GetInitiatorEntity
                } else {
                    self.verify_payment(txn, root)
                }
            },
        }
    }

    /// After reading the initiator's entity: it must exist and be authorized
    /// by the signers; then its balance is read.
    pub fn handle_get_entity_result(
        &self,
        state_root_hash: Hash32,
        entity_found: bool,
        signers: &Vec<Hash32>,
        can_authorize: bool,
        can_deploy_with: bool,
    ) -> (r: Step)
        ensures
            r == if !entity_found {
                failure_at(state_root_hash, ParameterFailure::NoSuchAddressableEntity)
            } else {
                match authorization(self.administrators@, signers@, can_authorize, can_deploy_with) {
                    Err(f) => failure_at(state_root_hash, f),
                    Ok(()) => Step::GetBalance,
                }
            },
    {
        if !entity_found {
            return Step::Reject(
                AcceptorError::Parameters { state_root_hash, failure: ParameterFailure::NoSuchAddressableEntity },
            );
        }
        match is_authorized_entity(&self.administrators, signers, can_authorize, can_deploy_with) {
            Err(failure) => Step::Reject(AcceptorError::Parameters { state_root_hash, failure }),
            Ok(()) => Step::GetBalance,
        }
    }

    /// After reading the initiator's balance: only a client's transaction
    /// gets here; the balance must be known and at least the baseline.
    pub fn handle_get_balance_result(
        &self,
        txn: &TransactionFacts,
        source: Source,
        state_root_hash: Hash32,
        balance: Option<U512>,
    ) -> (r: Step)
        ensures
            r == if !source.spec_is_client() {
                Step::Fatal
            } else {
                match balance {
                    None => failure_at(state_root_hash, ParameterFailure::UnknownBalance),
                    Some(b) => if !b.spec_ge(self.baseline_motes) {
                        failure_at(state_root_hash, ParameterFailure::InsufficientBalance)
                    } else {
                        payment_step(*txn, state_root_hash)
                    },
                }
            },
    {
        if !source.is_client() {
            return Step::Fatal;
        }
        match balance {
            None => Step::Reject(
                AcceptorError::Parameters { state_root_hash, failure: ParameterFailure::UnknownBalance },
            ),
            Some(b) => {
                if !b.ge(&self.baseline_motes) {
                    Step::Reject(
                        AcceptorError::Parameters { state_root_hash, failure: ParameterFailure::InsufficientBalance },
                    )
                } else {
                    self.verify_payment(txn, state_root_hash)
                }
            },
        }
    }

    /// Checks the payment: a deploy's payment item, and the contract or
    /// package it addresses by hash; a version 1 transaction goes on to its body.
    pub fn verify_payment(&self, txn: &TransactionFacts, state_root_hash: Hash32) -> (r: Step)
        ensures
            r == payment_step(*txn, state_root_hash),
    {
        match txn {
            TransactionFacts::Deploy { payment, .. } => {
                match deploy_payment_is_valid(&payment.kind, state_root_hash) {
                    Err(e) => Step::Reject(e),
                    Ok(()) => {
                        let next = self.verify_body(txn, state_root_hash);
                        step_for_identifier(&payment.identifier, true, next)
                    },
                }
            },
            TransactionFacts::V1 { .. } => self.verify_body(txn, state_root_hash),
        }
    }

    /// Checks the body: a deploy's session, or a version 1 transaction's target.
    pub fn verify_body(&self, txn: &TransactionFacts, state_root_hash: Hash32) -> (r: Step)
        ensures
            r == body_step(*txn, state_root_hash),
    {
        match txn {
            TransactionFacts::Deploy { .. } => self.verify_deploy_session(txn, state_root_hash),
            TransactionFacts::V1 { .. } => self.verify_transaction_v1_body(txn),
        }
    }

    /// Checks a deploy's session item and the contract or package it
    /// addresses by hash.
    pub fn verify_deploy_session(&self, txn: &TransactionFacts, state_root_hash: Hash32) -> (r: Step)
        ensures
            r == match txn {
                TransactionFacts::Deploy { .. } => body_step(*txn, state_root_hash),
                TransactionFacts::V1 { .. } => Step::Reject(AcceptorError::ExpectedDeploy),
            },
    {
        let session = match txn {
            TransactionFacts::Deploy { session, .. } => session,
            TransactionFacts::V1 { .. } => return Step::Reject(AcceptorError::ExpectedDeploy),
        };
        match session.kind {
            DeployItemKind::Transfer { has_target } => {
                if !has_target {
                    return Step::Reject(
                        AcceptorError::Parameters {
                            state_root_hash,
                            failure: ParameterFailure::MissingTransferTarget,
                        },
                    );
                }
            },
            DeployItemKind::ModuleBytes { is_empty, .. } => {
                if is_empty {
                    return Step::Reject(
                        AcceptorError::Parameters { state_root_hash, failure: ParameterFailure::MissingModuleBytes },
                    );
                }
            },
            DeployItemKind::StoredVersionedContractByHash { version }
            | DeployItemKind::StoredVersionedContractByName { version } => {
                if version.is_some() {
                    return Step::Reject(AcceptorError::DeployTargetingPackageVersionNotSupported);
                }
            },
            _ => {},
        }
        step_for_identifier(&session.identifier, false, Step::ValidateCryptography)
    }

    /// Checks a version 1 transaction's target: a stored contract addressed
    /// by hash, or a package addressed by hash, is read.
    pub fn verify_transaction_v1_body(&self, txn: &TransactionFacts) -> (r: Step)
        ensures
            r == match txn {
                TransactionFacts::V1 { target, .. } => v1_body_step(*target),
                TransactionFacts::Deploy { .. } => Step::Reject(AcceptorError::ExpectedTransactionV1),
            },
    {
        let target = match txn {
            TransactionFacts::V1 { target, .. } => target,
            TransactionFacts::Deploy { .. } => return Step::Reject(AcceptorError::ExpectedTransactionV1),
        };
        match target {
            V1Target::Stored(V1Invocation::ByHash(addr)) => Step::GetContract { contract_hash: *addr, is_payment: false },
            V1Target::Stored(V1Invocation::ByPackageHash { addr, version, version_key }) => {
                if version.is_some() {
                    Step::Reject(AcceptorError::V1TargetingPackageVersionNotSupported)
                } else {
                    Step::GetPackage { package_hash: *addr, version_key: *version_key, is_payment: false }
                }
            },
            V1Target::Stored(V1Invocation::ByPackageName { version }) => {
                if version.is_some() {
                    Step::Reject(AcceptorError::V1TargetingPackageVersionNotSupported)
                } else {
                    Step::ValidateCryptography
                }
            },
            _ => Step::ValidateCryptography,
        }
    }

    /// After reading a contract: it must exist; then its entry point is
    /// checked where there is one to check.
    pub fn handle_get_contract_result(
        &self,
        txn: &TransactionFacts,
        state_root_hash: Hash32,
        is_payment: bool,
        contract_hash: Hash32,
        contract_found: bool,
    ) -> (r: Step)
        ensures
            match contract_result_step(*txn, state_root_hash, is_payment, contract_hash, contract_found) {
                Some(step) => r == step,
                None => r matches Step::GetEntryPoint { contract_hash: c, entry_point_name: n, is_payment: p } && c
                    == contract_hash && p == is_payment && entry_point_to_check(*txn, is_payment) == Some(n@),
            },
    {
        if !contract_found {
            return Step::Reject(
                AcceptorError::Parameters {
                    state_root_hash,
                    failure: ParameterFailure::NoSuchContractAtHash { contract_hash },
                },
            );
        }
        let name: Option<String> = match txn {
            TransactionFacts::Deploy { payment, session } => {
                if is_payment {
                    Some(payment.entry_point_name.clone())
                } else {
                    Some(session.entry_point_name.clone())
                }
            },
            TransactionFacts::V1 { entry_point, .. } => {
                if is_payment {
                    None
                } else {
                    match entry_point {
                        TransactionEntryPoint::Call => Some(String::from_str(DEFAULT_ENTRY_POINT_NAME)),
                        TransactionEntryPoint::Custom(n) => Some(n.clone()),
                        _ => None,
                    }
                }
            },
        };
        match name {
            Some(entry_point_name) => Step::GetEntryPoint { contract_hash, entry_point_name, is_payment },
            None => {
                if is_payment {
                    self.verify_body(txn, state_root_hash)
                } else {
                    Step::ValidateCryptography
                }
            },
        }
    }

    /// After asking for an entry point: on the first virtual machine, and for
    /// accounts and system entities, it must exist.
    pub fn handle_get_entry_point_result(
        &self,
        txn: &TransactionFacts,
        state_root_hash: Hash32,
        is_payment: bool,
        entry_point_name: String,
        kind: EntityKind,
        entry_point_exists: bool,
    ) -> (r: Step)
        ensures
            r == if kind is SmartContractV2 {
                Step::ValidateCryptography
            } else if !entry_point_exists {
                failure_at(state_root_hash, ParameterFailure::NoSuchEntryPoint { entry_point_name })
            } else if is_payment {
                body_step(*txn, state_root_hash)
            } else {
                Step::ValidateCryptography
            },
    {
        match kind {
            EntityKind::SmartContractV2 => Step::ValidateCryptography,
            _ => {
                if !entry_point_exists {
                    return Step::Reject(
                        AcceptorError::Parameters {
                            state_root_hash,
                            failure: ParameterFailure::NoSuchEntryPoint { entry_point_name },
                        },
                    );
                }
                if is_payment {
                    return self.verify_body(txn, state_root_hash);
                }
                Step::ValidateCryptography
            },
        }
    }

    /// After reading a package: it must exist; without a version to check the
    /// acceptor goes on; a version must be present and enabled, and then the
    /// contract at it is read.
    pub fn handle_get_package_result(
        &self,
        txn: &TransactionFacts,
        state_root_hash: Hash32,
        is_payment: bool,
        package_hash: Hash32,
        version_key: Option<EntityVersionKey>,
        package: Option<&Package>,
    ) -> (r: Step)
        ensures
            r == match package {
                None => failure_at(state_root_hash, ParameterFailure::NoSuchPackageAtHash { package_hash }),
                Some(p) => match version_key {
                    None => if is_payment {
                        body_step(*txn, state_root_hash)
                    } else {
                        Step::ValidateCryptography
                    },
                    Some(k) => if p.version_missing(k) {
                        failure_at(state_root_hash, ParameterFailure::MissingEntityAtVersion { entity_version_key: k })
                    } else if !p.version_enabled(k) {
                        failure_at(state_root_hash, ParameterFailure::DisabledEntityAtVersion { entity_version_key: k })
                    } else {
                        match p.entity_at(k) {
                            Some(a) => Step::GetContract { contract_hash: a.spec_value(), is_payment },
                            None => failure_at(
                                state_root_hash,
                                ParameterFailure::InvalidEntityAtVersion { entity_version_key: k },
                            ),
                        }
                    },
                },
            },
    {
        let p = match package {
            Some(p) => p,
            None => return Step::Reject(
                AcceptorError::Parameters {
                    state_root_hash,
                    failure: ParameterFailure::NoSuchPackageAtHash { package_hash },
                },
            ),
        };
        let k = match version_key {
            Some(k) => k,
            None => {
                if is_payment {
                    return self.verify_body(txn, state_root_hash);
                }
                return Step::ValidateCryptography;
            },
        };
        if p.is_version_missing(&k) {
            return Step::Reject(
                AcceptorError::Parameters {
                    state_root_hash,
                    failure: ParameterFailure::MissingEntityAtVersion { entity_version_key: k },
                },
            );
        }
        if !p.is_version_enabled(&k) {
            return Step::Reject(
                AcceptorError::Parameters {
                    state_root_hash,
                    failure: ParameterFailure::DisabledEntityAtVersion { entity_version_key: k },
                },
            );
        }
        match p.lookup_entity_hash(&k) {
            Some(a) => Step::GetContract { contract_hash: a.value(), is_payment },
            None => Step::Reject(
                AcceptorError::Parameters {
                    state_root_hash,
                    failure: ParameterFailure::InvalidEntityAtVersion { entity_version_key: k },
                },
            ),
        }
    }

    /// After the cryptographic checks (`validity`, checked outside): an
    /// invalid transaction is rejected; one sent for speculative execution is
    /// only answered; any other is stored.
    pub fn validate_transaction_cryptography(&self, validity: Result<(), String>, source: Source) -> (r: Result<
        Acceptance,
        AcceptorError,
    >)
        ensures
            r == match validity {
                Err(e) => Err(AcceptorError::InvalidTransaction(e)),
                Ok(()) => Ok(
                    if source is SpeculativeExec {
                        Acceptance::RespondOnly
                    } else {
                        Acceptance::PutToStorage
                    },
                ),
            },
    {
        match validity {
            Err(e) => Err(AcceptorError::InvalidTransaction(e)),
            Ok(()) => {
                match source {
                    Source::SpeculativeExec => Ok(Acceptance::RespondOnly),
                    _ => Ok(Acceptance::PutToStorage),
                }
            },
        }
    }

    /// After storing: a new transaction is announced; one stored before and
    /// fetched from a peer has its approvals stored as finalized first;
    /// otherwise the client is answered.
    pub fn handle_put_to_storage(&self, is_new: bool, source: Source) -> (r: Stored)
        ensures
            r == if is_new {
                Stored { announce: true, store_finalized_approvals: false, respond: true }
            } else if source is Peer {
                Stored { announce: false, store_finalized_approvals: true, respond: false }
            } else {
                Stored { announce: false, store_finalized_approvals: false, respond: true }
            },
    {
        if is_new {
            Stored { announce: true, store_finalized_approvals: false, respond: true }
        } else if matches!(source, Source::Peer(_)) {
            Stored { announce: false, store_finalized_approvals: true, respond: false }
        } else {
            Stored { announce: false, store_finalized_approvals: false, respond: true }
        }
    }

    /// After storing finalized approvals: the transaction is announced if they
    /// were new, and the client answered.
    pub fn handle_stored_finalized_approvals(&self, is_new: bool) -> (r: Stored)
        ensures
            r == (Stored { announce: is_new, store_finalized_approvals: false, respond: true }),
    {
        Stored { announce: is_new, store_finalized_approvals: false, respond: true }
    }
}

} // verus!
