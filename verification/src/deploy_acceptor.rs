//! The decisions of the deploy acceptor, which checks every new deploy as
//! far as possible, stores it if it is valid, and announces it.
//!
//! Each check that needs global state or storage is a step: the node performs
//! the read and hands its outcome to the next decision.

use vstd::prelude::*;

use crate::hash32::Hash32;
use crate::transaction_acceptor::U512;

verus! {

/// Why a deploy's parameters fail against global state.
#[derive(Clone, Debug, PartialEq, Eq)]
pub enum DeployParameterFailure {
    /// The query failed; the words say why.
    InvalidQuery { key: Hash32, message: String },
    InvalidGlobalStateHash,
    NonexistentAccount { account_hash: Hash32 },
    NonexistentContractAtHash { contract_hash: Hash32 },
    NonexistentContractAtName { name: String },
    NonexistentContractEntryPoint { entry_point: String },
    NonexistentContractPackageAtHash { contract_package_hash: Hash32 },
    NonexistentContractPackageAtName { name: String },
    NonexistentContractPackageEntryPoint { entry_point: String },
    InvalidAssociatedKeys,
    InsufficientDeploySignatureWeight,
    InsufficientBalance,
    UnknownBalance,
}

/// Why a deploy is not accepted.
#[derive(Clone, Debug, PartialEq, Eq)]
pub enum Error {
    /// The block chain has no blocks.
    InvalidBlockchain,
    /// The deploy does not comply with the chainspec, or is badly signed; the words say why.
    InvalidDeployConfiguration(String),
    /// The deploy's parameters fail against the global state at `prestate_hash`.
    InvalidDeployParameters { prestate_hash: Hash32, failure: DeployParameterFailure },
    /// The account a client's deploy comes from is not known.
    InvalidAccount,
    /// The account a client's deploy comes from lacks the minimum balance.
    InsufficientBalance,
}

/// The outcome of a query of global state.
#[derive(Clone, Debug, PartialEq, Eq)]
pub enum QueryOutcome {
    /// The query found a value of this kind.
    Success(StoredValueKind),
    /// The state root is not known.
    RootNotFound,
    /// The query ended otherwise; the words describe how.
    OtherResult(String),
    /// The query failed; the words say why.
    Failed(String),
}

/// The kind of a value found in global state, with what the checks read of it.
#[derive(Copy, Clone, Debug, PartialEq, Eq, Structural)]
pub enum StoredValueKind {
    /// An account, and whether the deploy's approvals can authorize for it
    /// and carry the weight to deploy.
    Account { can_authorize: bool, can_deploy_with: bool },
    /// A contract, and whether it has the deploy's entry point.
    Contract { has_entry_point: bool },
    /// A contract package, and whether it has the deploy's entry point.
    ContractPackage { has_entry_point: bool },
    /// A value of another kind.
    Other,
}

/// How a deploy's payment or session addresses a contract or package.
#[derive(Clone, Debug, PartialEq, Eq)]
pub enum ContractIdentifier {
    /// By a named key of the deploy's account.
    Name(String),
    /// By hash.
    Hash(Hash32),
}

/// What a deploy's payment or session runs.
#[derive(Clone, Debug, PartialEq, Eq)]
pub enum DeployItemIdentifier {
    Module,
    Transfer,
    Contract(ContractIdentifier),
    Package(ContractIdentifier),
}

/// A query of global state: under a key, along a path of names.
#[derive(Clone, Debug, PartialEq, Eq)]
pub struct QueryRequest {
    pub prestate_hash: Hash32,
    pub key: Hash32,
    pub path: Vec<String>,
}

/// The failure for a query outcome that found nothing usable.
pub open spec fn unusable_query(outcome: QueryOutcome, key: Hash32) -> DeployParameterFailure {
    match outcome {
        QueryOutcome::RootNotFound => DeployParameterFailure::InvalidGlobalStateHash,
        QueryOutcome::OtherResult(message) => DeployParameterFailure::InvalidQuery { key, message },
        QueryOutcome::Failed(message) => DeployParameterFailure::InvalidQuery { key, message },
        QueryOutcome::Success(_) => DeployParameterFailure::InvalidGlobalStateHash,
    }
}

fn unusable_query_failure(outcome: QueryOutcome, key: Hash32) -> (r: DeployParameterFailure)
    requires
        !(outcome is Success),
    ensures
        r == unusable_query(outcome, key),
{
    match outcome {
        QueryOutcome::OtherResult(message) => DeployParameterFailure::InvalidQuery { key, message },
        QueryOutcome::Failed(message) => DeployParameterFailure::InvalidQuery { key, message },
        _ => DeployParameterFailure::InvalidGlobalStateHash,
    }
}

/// What the acceptor does next.
#[derive(Clone, Debug, PartialEq, Eq)]
pub enum Step {
    /// The deploy is invalid: answer the client, if any, with the error, and
    /// announce the deploy invalid.
    Invalid(Error),
    /// Answer the client, if any, with the error, and do nothing more.
    RespondError(Error),
    /// Read the highest block from storage.
    GetHighestBlock,
    /// Query global state for the deploy's account.
    QueryAccount(QueryRequest),
    /// Read the balance of the account's main purse.
    GetBalance,
    /// Check the deploy's payment item.
    CheckPayment,
    /// Check the deploy's session item.
    CheckSession,
    /// Query global state for the contract a payment or session item calls.
    QueryContract(QueryRequest),
    /// Query global state for the package a payment or session item calls.
    QueryPackage(QueryRequest),
    /// Ask whether a client's account is verified.
    VerifyAccount,
    /// Check the deploy's signatures.
    CheckSignatures,
}

/// The query for an item addressed by name or hash: a name is looked up
/// among the account's named keys.
pub open spec fn item_query(prestate_hash: Hash32, account_hash: Hash32, id: ContractIdentifier) -> (Hash32, Seq<
    Seq<char>,
>) {
    match id {
        ContractIdentifier::Name(name) => (account_hash, seq![name@]),
        ContractIdentifier::Hash(hash) => (hash, Seq::empty()),
    }
}

fn item_query_request(prestate_hash: Hash32, account_hash: Hash32, id: &ContractIdentifier) -> (r: QueryRequest)
    ensures
        r.prestate_hash == prestate_hash,
        (r.key, r.path@.map_values(|s: String| s@)) == item_query(prestate_hash, account_hash, *id),
{
    match id {
        ContractIdentifier::Name(name) => {
            let mut path: Vec<String> = Vec::new();
            path.push(name.clone());
            assert(path@.map_values(|s: String| s@) =~= seq![name@]);
            QueryRequest { prestate_hash, key: account_hash, path }
        },
        ContractIdentifier::Hash(hash) => {
            let path: Vec<String> = Vec::new();
            assert(path@.map_values(|s: String| s@) =~= Seq::<Seq<char>>::empty());
            QueryRequest { prestate_hash, key: *hash, path }
        },
    }
}

/// The component's configuration.
pub struct DeployAcceptor {
    pub chain_name: String,
    pub verify_accounts: bool,
    /// The balance an account needs to pay for a deploy at most.
    pub max_payment: U512,
}

impl DeployAcceptor {
    /// The first check: compliance with the chainspec (checked outside).
    pub fn accept(&self, compliance: Result<(), String>) -> (r: Step)
        ensures
            r == match compliance {
                Err(e) => Step::Invalid(Error::InvalidDeployConfiguration(e)),
                Ok(()) => Step::GetHighestBlock,
            },
    {
        match compliance {
            Err(e) => Step::Invalid(Error::InvalidDeployConfiguration(e)),
            Ok(()) => Step::GetHighestBlock,
        }
    }

    /// After reading the highest block (its state root, if there is one):
    /// the deploy's account is queried at that root.
    pub fn handle_highest_block(&self, prestate_hash: Option<Hash32>, account_hash: Hash32) -> (r: Step)
        ensures
            match prestate_hash {
                None => r == Step::RespondError(Error::InvalidBlockchain),
                Some(p) => r matches Step::QueryAccount(q) && q.prestate_hash == p && q.key == account_hash
                    && q.path@.len() == 0,
            },
    {
        match prestate_hash {
            None => Step::RespondError(Error::InvalidBlockchain),
            Some(p) => Step::QueryAccount(QueryRequest { prestate_hash: p, key: account_hash, path: Vec::new() }),
        }
    }

    /// After querying the deploy's account: it must be an account that the
    /// deploy's approvals can authorize for, with the weight to deploy; then
    /// its balance is read.
    pub fn handle_account_query(&self, prestate_hash: Hash32, account_hash: Hash32, outcome: QueryOutcome) -> (r: Step)
        ensures
            r == match outcome {
                QueryOutcome::Success(StoredValueKind::Account { can_authorize, can_deploy_with }) => if !can_authorize {
                    Step::Invalid(Error::InvalidDeployParameters { prestate_hash, failure: DeployParameterFailure::InvalidAssociatedKeys })
                } else if !can_deploy_with {
                    Step::Invalid(Error::InvalidDeployParameters {
                        prestate_hash,
                        failure: DeployParameterFailure::InsufficientDeploySignatureWeight,
                    })
                } else {
                    Step::GetBalance
                },
                QueryOutcome::Success(_) => Step::Invalid(Error::InvalidDeployParameters {
                    prestate_hash,
                    failure: DeployParameterFailure::NonexistentAccount { account_hash },
                }),
                _ => Step::Invalid(Error::InvalidDeployParameters { prestate_hash, failure: unusable_query(outcome, account_hash) }),
            },
    {
        match outcome {
            QueryOutcome::Success(StoredValueKind::Account { can_authorize, can_deploy_with }) => {
                if !can_authorize {
                    Step::Invalid(
                        Error::InvalidDeployParameters {
                            prestate_hash,
                            failure: DeployParameterFailure::InvalidAssociatedKeys,
                        },
                    )
                } else if !can_deploy_with {
                    Step::Invalid(
                        Error::InvalidDeployParameters {
                            prestate_hash,
                            failure: DeployParameterFailure::InsufficientDeploySignatureWeight,
                        },
                    )
                } else {
                    Step::GetBalance
                }
            },
            QueryOutcome::Success(_) => Step::Invalid(
                Error::InvalidDeployParameters {
                    prestate_hash,
                    failure: DeployParameterFailure::NonexistentAccount { account_hash },
                },
            ),
            other => Step::Invalid(
                Error::InvalidDeployParameters { prestate_hash, failure: unusable_query_failure(other, account_hash) },
            ),
        }
    }

    /// After reading the account's balance (`Err` if the read failed, which
    /// skips the check): a known balance must cover the largest payment.
    pub fn handle_balance(&self, prestate_hash: Hash32, balance: Result<Option<U512>, ()>) -> (r: Step)
        ensures
            r == match balance {
                Ok(Some(motes)) => if !motes.spec_ge(self.max_payment) {
                    Step::Invalid(Error::InvalidDeployParameters { prestate_hash, failure: DeployParameterFailure::InsufficientBalance })
                } else {
                    Step::CheckPayment
                },
                Ok(None) => Step::Invalid(Error::InvalidDeployParameters { prestate_hash, failure: DeployParameterFailure::UnknownBalance }),
                Err(()) => Step::CheckPayment,
            },
    {
        match balance {
            Ok(Some(motes)) => {
                if !motes.ge(&self.max_payment) {
                    Step::Invalid(
                        Error::InvalidDeployParameters {
                            prestate_hash,
                            failure: DeployParameterFailure::InsufficientBalance,
                        },
                    )
                } else {
                    Step::CheckPayment
                }
            },
            Ok(None) => Step::Invalid(
                Error::InvalidDeployParameters { prestate_hash, failure: DeployParameterFailure::UnknownBalance },
            ),
            Err(()) => Step::CheckPayment,
        }
    }

    /// Checks a payment or session item: a module or a transfer passes
    /// (`next`); a contract or package is queried.
    pub fn check_item(
        &self,
        prestate_hash: Hash32,
        account_hash: Hash32,
        identifier: &DeployItemIdentifier,
        next: Step,
    ) -> (r: Step)
        ensures
            match *identifier {
                DeployItemIdentifier::Module | DeployItemIdentifier::Transfer => r == next,
                DeployItemIdentifier::Contract(id) => r matches Step::QueryContract(q) && q.prestate_hash == prestate_hash
                    && (q.key, q.path@.map_values(|s: String| s@)) == item_query(prestate_hash, account_hash, id),
                DeployItemIdentifier::Package(id) => r matches Step::QueryPackage(q) && q.prestate_hash == prestate_hash
                    && (q.key, q.path@.map_values(|s: String| s@)) == item_query(prestate_hash, account_hash, id),
            },
    {
        match identifier {
            DeployItemIdentifier::Module | DeployItemIdentifier::Transfer => next,
            DeployItemIdentifier::Contract(id) => Step::QueryContract(item_query_request(prestate_hash, account_hash, id)),
            DeployItemIdentifier::Package(id) => Step::QueryPackage(item_query_request(prestate_hash, account_hash, id)),
        }
    }

    /// After querying a contract an item calls: it must be a contract with the
    /// item's entry point.
    pub fn handle_contract_query(
        &self,
        prestate_hash: Hash32,
        query_key: Hash32,
        id: ContractIdentifier,
        entry_point: String,
        outcome: QueryOutcome,
    ) -> (r: Result<(), Error>)
        ensures
            r == match outcome {
                QueryOutcome::Success(StoredValueKind::Contract { has_entry_point }) => if has_entry_point {
                    Ok(())
                } else {
                    Err(Error::InvalidDeployParameters {
                        prestate_hash,
                        failure: DeployParameterFailure::NonexistentContractEntryPoint { entry_point },
                    })
                },
                QueryOutcome::Success(_) => Err(Error::InvalidDeployParameters {
                    prestate_hash,
                    failure: match id {
                        ContractIdentifier::Name(name) => DeployParameterFailure::NonexistentContractAtName { name },
                        ContractIdentifier::Hash(contract_hash) => DeployParameterFailure::NonexistentContractAtHash {
                            contract_hash,
                        },
                    },
                }),
                _ => Err(Error::InvalidDeployParameters { prestate_hash, failure: unusable_query(outcome, query_key) }),
            },
    {
        match outcome {
            QueryOutcome::Success(StoredValueKind::Contract { has_entry_point }) => {
                if has_entry_point {
                    Ok(())
                } else {
                    Err(
                        Error::InvalidDeployParameters {
                            prestate_hash,
                            failure: DeployParameterFailure::NonexistentContractEntryPoint { entry_point },
                        },
                    )
                }
            },
            QueryOutcome::Success(_) => {
                let failure = match id {
                    ContractIdentifier::Name(name) => DeployParameterFailure::NonexistentContractAtName { name },
                    ContractIdentifier::Hash(contract_hash) => DeployParameterFailure::NonexistentContractAtHash {
                        contract_hash,
                    },
                };
                Err(Error::InvalidDeployParameters { prestate_hash, failure })
            },
            other => Err(
                Error::InvalidDeployParameters { prestate_hash, failure: unusable_query_failure(other, query_key) },
            ),
        }
    }

    /// After querying a package an item calls: it must be a contract package
    /// with the item's entry point.
    pub fn handle_package_query(
        &self,
        prestate_hash: Hash32,
        query_key: Hash32,
        id: ContractIdentifier,
        entry_point: String,
        outcome: QueryOutcome,
    ) -> (r: Result<(), Error>)
        ensures
            r == match outcome {
                QueryOutcome::Success(StoredValueKind::ContractPackage { has_entry_point }) => if has_entry_point {
                    Ok(())
                } else {
                    Err(Error::InvalidDeployParameters {
                        prestate_hash,
                        failure: DeployParameterFailure::NonexistentContractPackageEntryPoint { entry_point },
                    })
                },
                QueryOutcome::Success(_) => Err(Error::InvalidDeployParameters {
                    prestate_hash,
                    failure: match id {
                        ContractIdentifier::Name(name) => DeployParameterFailure::NonexistentContractPackageAtName { name },
                        ContractIdentifier::Hash(contract_package_hash) => DeployParameterFailure::NonexistentContractPackageAtHash {
                            contract_package_hash,
                        },
                    },
                }),
                _ => Err(Error::InvalidDeployParameters { prestate_hash, failure: unusable_query(outcome, query_key) }),
            },
    {
        match outcome {
            QueryOutcome::Success(StoredValueKind::ContractPackage { has_entry_point }) => {
                if has_entry_point {
                    Ok(())
                } else {
                    Err(
                        Error::InvalidDeployParameters {
                            prestate_hash,
                            failure: DeployParameterFailure::NonexistentContractPackageEntryPoint { entry_point },
                        },
                    )
                }
            },
            QueryOutcome::Success(_) => {
                let failure = match id {
                    ContractIdentifier::Name(name) => DeployParameterFailure::NonexistentContractPackageAtName { name },
                    ContractIdentifier::Hash(contract_package_hash) => DeployParameterFailure::NonexistentContractPackageAtHash {
                        contract_package_hash,
                    },
                };
                Err(Error::InvalidDeployParameters { prestate_hash, failure })
            },
            other => Err(
                Error::InvalidDeployParameters { prestate_hash, failure: unusable_query_failure(other, query_key) },
            ),
        }
    }

    /// After the payment and session checks: a client's deploy needs its
    /// account verified; a peer's goes on to the signatures.
    pub fn after_items(&self, from_client: bool) -> (r: Step)
        ensures
            r == if from_client {
                Step::VerifyAccount
            } else {
                Step::CheckSignatures
            },
    {
        if from_client {
            Step::VerifyAccount
        } else {
            Step::CheckSignatures
        }
    }

    /// After asking whether a client's account is verified (`None` if it is
    /// unknown, `Some(false)` if it lacks the minimum balance).
    pub fn handle_verified_account(&self, verified: Option<bool>) -> (r: Step)
        ensures
            r == match verified {
                None => Step::RespondError(Error::InvalidAccount),
                Some(false) => Step::RespondError(Error::InsufficientBalance),
                Some(true) => Step::CheckSignatures,
            },
    {
        match verified {
            None => Step::RespondError(Error::InvalidAccount),
            Some(false) => Step::RespondError(Error::InsufficientBalance),
            Some(true) => Step::CheckSignatures,
        }
    }

    /// After checking the signatures (`validity`, checked outside): a valid
    /// deploy is stored (`Ok`), an invalid one rejected.
    pub fn handle_signatures(&self, validity: Result<(), String>) -> (r: Result<(), Error>)
        ensures
            r == match validity {
                Ok(()) => Ok::<(), Error>(()),
                Err(e) => Err(Error::InvalidDeployConfiguration(e)),
            },
    {
        match validity {
            Ok(()) => Ok(()),
            Err(e) => Err(Error::InvalidDeployConfiguration(e)),
        }
    }

    /// After storing the deploy: whether to announce it as newly accepted;
    /// the client, if any, is answered that it is accepted either way.
    pub fn handle_put_to_storage(&self, is_new: bool) -> (r: bool)
        ensures
            r == is_new,
    {
        is_new
    }
}

} // verus!
