use casper_node_logic::deploy_acceptor::{
    ContractIdentifier, DeployAcceptor, DeployItemIdentifier, DeployParameterFailure, Error, QueryOutcome,
    Step as DeployStep, StoredValueKind,
};
use casper_node_logic::execution_kind::{EntityAddr, EntityVersionKey, Package};
use casper_node_logic::hash32::Hash32;
use casper_node_logic::lanes::TransactionEntryPoint;
use casper_node_logic::transaction_acceptor::{
    deploy_payment_is_valid, is_authorized_entity, Acceptance, AcceptorError, AmountArg, DeployItem, DeployItemKind,
    EntityIdentifier, EntityKind, ItemIdentifier, PackageIdentifier, ParameterFailure, Source, Step, Stored,
    TransactionAcceptor, TransactionFacts, V1Invocation, V1Target, U512,
};

fn h(b: u8) -> Hash32 {
    Hash32::new([b; 32])
}

fn u512(low: u64) -> U512 {
    U512 { words: [low, 0, 0, 0, 0, 0, 0, 0] }
}

fn acceptor() -> TransactionAcceptor {
    TransactionAcceptor { administrators: vec![h(200)], baseline_motes: u512(1_000) }
}

fn item(kind: DeployItemKind, identifier: ItemIdentifier, entry_point: &str) -> DeployItem {
    DeployItem { kind, identifier, entry_point_name: entry_point.to_string() }
}

fn standard_payment() -> DeployItem {
    item(DeployItemKind::ModuleBytes { is_empty: true, amount: AmountArg::Valid }, ItemIdentifier::Module, "call")
}

fn session_bytes() -> DeployItem {
    item(DeployItemKind::ModuleBytes { is_empty: false, amount: AmountArg::Missing }, ItemIdentifier::Module, "call")
}

fn deploy(payment: DeployItem, session: DeployItem) -> TransactionFacts {
    TransactionFacts::Deploy { payment, session }
}

fn param(root: Hash32, failure: ParameterFailure) -> Step {
    Step::Reject(AcceptorError::Parameters { state_root_hash: root, failure })
}

#[test]
fn accept_checks_seed_compliance_and_expiry() {
    let a = acceptor();
    assert_eq!(a.accept(Ok(()), true, Ok(()), Source::Client, false, 0, 0), Step::Reject(AcceptorError::MissingSeed));
    assert_eq!(
        a.accept(Ok(()), false, Err("bad ttl".to_string()), Source::Client, false, 0, 0),
        Step::Reject(AcceptorError::InvalidTransaction("bad ttl".to_string()))
    );
    assert_eq!(
        a.accept(Ok(()), false, Ok(()), Source::Client, true, 5, 9),
        Step::Reject(AcceptorError::Expired { expiry_timestamp: 5, current_node_timestamp: 9 })
    );
    // Expiry is only checked for clients.
    assert_eq!(a.accept(Ok(()), false, Ok(()), Source::Peer(3), true, 5, 9), Step::GetBlockHeader);
    // A transaction that does not convert is rejected before anything else.
    assert_eq!(
        a.accept(Err("no pricing".to_string()), true, Err("bad ttl".to_string()), Source::Client, true, 5, 9),
        Step::Reject(AcceptorError::InvalidTransaction("no pricing".to_string()))
    );
}

#[test]
fn client_transactions_have_their_initiator_checked() {
    let a = acceptor();
    let txn = deploy(standard_payment(), session_bytes());
    assert_eq!(a.handle_get_block_header_result(&txn, Source::Client, None), Step::Reject(AcceptorError::EmptyBlockchain));
    assert_eq!(a.handle_get_block_header_result(&txn, Source::Client, Some(h(1))), Step::GetInitiatorEntity);
    assert_eq!(a.handle_get_block_header_result(&txn, Source::Peer(1), Some(h(1))), Step::ValidateCryptography);
    assert_eq!(a.handle_get_entity_result(h(1), false, &vec![], true, true), param(h(1), ParameterFailure::NoSuchAddressableEntity));
    assert_eq!(
        a.handle_get_entity_result(h(1), true, &vec![h(5)], false, true),
        param(h(1), ParameterFailure::InvalidAssociatedKeys)
    );
    // An administrator's signature authorizes anything.
    assert_eq!(a.handle_get_entity_result(h(1), true, &vec![h(5), h(200)], false, false), Step::GetBalance);
    assert_eq!(
        a.handle_get_balance_result(&txn, Source::Client, h(1), Some(u512(999))),
        param(h(1), ParameterFailure::InsufficientBalance)
    );
    assert_eq!(a.handle_get_balance_result(&txn, Source::Client, h(1), None), param(h(1), ParameterFailure::UnknownBalance));
    assert_eq!(a.handle_get_balance_result(&txn, Source::Client, h(1), Some(u512(1_000))), Step::ValidateCryptography);
    assert_eq!(a.handle_get_balance_result(&txn, Source::Peer(2), h(1), Some(u512(1_000))), Step::Fatal);
}

#[test]
fn deploy_payments_are_checked() {
    assert_eq!(
        deploy_payment_is_valid(&DeployItemKind::Transfer { has_target: true }, h(1)),
        Err(AcceptorError::Parameters { state_root_hash: h(1), failure: ParameterFailure::InvalidPaymentVariant })
    );
    assert_eq!(
        deploy_payment_is_valid(&DeployItemKind::ModuleBytes { is_empty: true, amount: AmountArg::Missing }, h(1)),
        Err(AcceptorError::Parameters { state_root_hash: h(1), failure: ParameterFailure::MissingPaymentAmount })
    );
    assert_eq!(
        deploy_payment_is_valid(&DeployItemKind::ModuleBytes { is_empty: true, amount: AmountArg::Unparsable }, h(1)),
        Err(AcceptorError::Parameters { state_root_hash: h(1), failure: ParameterFailure::FailedToParsePaymentAmount })
    );
    assert_eq!(deploy_payment_is_valid(&DeployItemKind::ModuleBytes { is_empty: false, amount: AmountArg::Missing }, h(1)), Ok(()));
    assert_eq!(
        deploy_payment_is_valid(&DeployItemKind::StoredVersionedContractByHash { version: Some(1) }, h(1)),
        Err(AcceptorError::DeployTargetingPackageVersionNotSupported)
    );
}

#[test]
fn payment_and_session_by_hash_are_read() {
    let a = acceptor();
    let payment = item(
        DeployItemKind::StoredContractByHash,
        ItemIdentifier::AddressableEntity(EntityIdentifier::Hash(h(7))),
        "pay",
    );
    let session = item(
        DeployItemKind::StoredVersionedContractByHash { version: None },
        ItemIdentifier::Package(PackageIdentifier::Hash { package_hash: h(8), version: None }),
        "run",
    );
    let txn = deploy(payment, session);
    assert_eq!(a.verify_payment(&txn, h(1)), Step::GetContract { contract_hash: h(7), is_payment: true });
    assert_eq!(
        a.handle_get_contract_result(&txn, h(1), true, h(7), true),
        Step::GetEntryPoint { contract_hash: h(7), entry_point_name: "pay".to_string(), is_payment: true }
    );
    assert_eq!(
        a.handle_get_contract_result(&txn, h(1), true, h(7), false),
        param(h(1), ParameterFailure::NoSuchContractAtHash { contract_hash: h(7) })
    );
    // The payment's entry point exists: on to the session, whose package is read.
    assert_eq!(
        a.handle_get_entry_point_result(&txn, h(1), true, "pay".to_string(), EntityKind::SmartContractV1, true),
        Step::GetPackage { package_hash: h(8), version_key: None, is_payment: false }
    );
    assert_eq!(
        a.handle_get_entry_point_result(&txn, h(1), true, "pay".to_string(), EntityKind::SmartContractV1, false),
        param(h(1), ParameterFailure::NoSuchEntryPoint { entry_point_name: "pay".to_string() })
    );
    assert_eq!(
        a.handle_get_entry_point_result(&txn, h(1), true, "pay".to_string(), EntityKind::SmartContractV2, false),
        Step::ValidateCryptography
    );
    let package = Package {
        versions: vec![(EntityVersionKey { protocol_version_major: 2, entity_version: 1 }, EntityAddr::SmartContract(h(9)))],
        disabled_versions: vec![],
    };
    assert_eq!(a.handle_get_package_result(&txn, h(1), false, h(8), None, Some(&package)), Step::ValidateCryptography);
    let key = EntityVersionKey { protocol_version_major: 2, entity_version: 1 };
    assert_eq!(
        a.handle_get_package_result(&txn, h(1), false, h(8), Some(key), Some(&package)),
        Step::GetContract { contract_hash: h(9), is_payment: false }
    );
    let missing = EntityVersionKey { protocol_version_major: 2, entity_version: 2 };
    assert_eq!(
        a.handle_get_package_result(&txn, h(1), false, h(8), Some(missing), Some(&package)),
        param(h(1), ParameterFailure::MissingEntityAtVersion { entity_version_key: missing })
    );
    assert_eq!(
        a.handle_get_package_result(&txn, h(1), false, h(8), None, None),
        param(h(1), ParameterFailure::NoSuchPackageAtHash { package_hash: h(8) })
    );
}

#[test]
fn deploy_sessions_are_checked() {
    let a = acceptor();
    let empty = item(DeployItemKind::ModuleBytes { is_empty: true, amount: AmountArg::Valid }, ItemIdentifier::Module, "call");
    assert_eq!(a.verify_deploy_session(&deploy(standard_payment(), empty), h(1)), param(h(1), ParameterFailure::MissingModuleBytes));
    let transfer = item(DeployItemKind::Transfer { has_target: false }, ItemIdentifier::Transfer, "call");
    assert_eq!(a.verify_deploy_session(&deploy(standard_payment(), transfer), h(1)), param(h(1), ParameterFailure::MissingTransferTarget));
    let by_name = item(
        DeployItemKind::StoredContractByName,
        ItemIdentifier::AddressableEntity(EntityIdentifier::Name("c".to_string())),
        "call",
    );
    assert_eq!(a.verify_deploy_session(&deploy(standard_payment(), by_name), h(1)), Step::ValidateCryptography);
    let v1 = TransactionFacts::V1 { target: V1Target::Native, entry_point: TransactionEntryPoint::Transfer };
    assert_eq!(a.verify_deploy_session(&v1, h(1)), Step::Reject(AcceptorError::ExpectedDeploy));
}

#[test]
fn v1_bodies_are_checked() {
    let a = acceptor();
    let stored = TransactionFacts::V1 {
        target: V1Target::Stored(V1Invocation::ByHash(h(4))),
        entry_point: TransactionEntryPoint::Call,
    };
    assert_eq!(a.verify_transaction_v1_body(&stored), Step::GetContract { contract_hash: h(4), is_payment: false });
    assert_eq!(
        a.handle_get_contract_result(&stored, h(1), false, h(4), true),
        Step::GetEntryPoint { contract_hash: h(4), entry_point_name: "call".to_string(), is_payment: false }
    );
    let versioned = TransactionFacts::V1 {
        target: V1Target::Stored(V1Invocation::ByPackageName { version: Some(3) }),
        entry_point: TransactionEntryPoint::Call,
    };
    assert_eq!(a.verify_transaction_v1_body(&versioned), Step::Reject(AcceptorError::V1TargetingPackageVersionNotSupported));
    let native = TransactionFacts::V1 { target: V1Target::Native, entry_point: TransactionEntryPoint::Transfer };
    assert_eq!(a.verify_transaction_v1_body(&native), Step::ValidateCryptography);
    assert_eq!(
        a.verify_transaction_v1_body(&deploy(standard_payment(), session_bytes())),
        Step::Reject(AcceptorError::ExpectedTransactionV1)
    );
}

#[test]
fn storing_and_announcing() {
    let a = acceptor();
    assert_eq!(a.validate_transaction_cryptography(Ok(()), Source::SpeculativeExec), Ok(Acceptance::RespondOnly));
    assert_eq!(a.validate_transaction_cryptography(Ok(()), Source::Client), Ok(Acceptance::PutToStorage));
    assert_eq!(
        a.validate_transaction_cryptography(Err("bad signature".to_string()), Source::Client),
        Err(AcceptorError::InvalidTransaction("bad signature".to_string()))
    );
    assert_eq!(a.handle_put_to_storage(true, Source::Client), Stored { announce: true, store_finalized_approvals: false, respond: true });
    assert_eq!(a.handle_put_to_storage(false, Source::Peer(4)), Stored { announce: false, store_finalized_approvals: true, respond: false });
    assert_eq!(a.handle_put_to_storage(false, Source::Client), Stored { announce: false, store_finalized_approvals: false, respond: true });
    assert_eq!(a.handle_stored_finalized_approvals(false), Stored { announce: false, store_finalized_approvals: false, respond: true });
}

#[test]
fn authorization_prefers_administrators() {
    assert_eq!(is_authorized_entity(&vec![h(1)], &vec![h(2)], true, false), Err(ParameterFailure::InsufficientSignatureWeight));
    assert_eq!(is_authorized_entity(&vec![h(1)], &vec![h(2), h(1)], false, false), Ok(()));
    assert_eq!(is_authorized_entity(&vec![], &vec![h(2)], true, true), Ok(()));
}

fn deploy_acceptor() -> DeployAcceptor {
    DeployAcceptor { chain_name: "casper".to_string(), verify_accounts: true, max_payment: u512(100) }
}

#[test]
fn deploy_acceptor_checks_the_account() {
    let a = deploy_acceptor();
    assert_eq!(a.accept(Err("too big".to_string())), DeployStep::Invalid(Error::InvalidDeployConfiguration("too big".to_string())));
    assert_eq!(a.accept(Ok(())), DeployStep::GetHighestBlock);
    assert_eq!(a.handle_highest_block(None, h(3)), DeployStep::RespondError(Error::InvalidBlockchain));
    match a.handle_highest_block(Some(h(9)), h(3)) {
        DeployStep::QueryAccount(q) => {
            assert_eq!(q.prestate_hash, h(9));
            assert_eq!(q.key, h(3));
            assert!(q.path.is_empty());
        }
        other => panic!("unexpected {:?}", other),
    }
    let ok = QueryOutcome::Success(StoredValueKind::Account { can_authorize: true, can_deploy_with: true });
    assert_eq!(a.handle_account_query(h(9), h(3), ok), DeployStep::GetBalance);
    let weak = QueryOutcome::Success(StoredValueKind::Account { can_authorize: true, can_deploy_with: false });
    assert_eq!(
        a.handle_account_query(h(9), h(3), weak),
        DeployStep::Invalid(Error::InvalidDeployParameters {
            prestate_hash: h(9),
            failure: DeployParameterFailure::InsufficientDeploySignatureWeight
        })
    );
    assert_eq!(
        a.handle_account_query(h(9), h(3), QueryOutcome::Success(StoredValueKind::Other)),
        DeployStep::Invalid(Error::InvalidDeployParameters {
            prestate_hash: h(9),
            failure: DeployParameterFailure::NonexistentAccount { account_hash: h(3) }
        })
    );
    assert_eq!(
        a.handle_account_query(h(9), h(3), QueryOutcome::RootNotFound),
        DeployStep::Invalid(Error::InvalidDeployParameters { prestate_hash: h(9), failure: DeployParameterFailure::InvalidGlobalStateHash })
    );
    assert_eq!(a.handle_balance(h(9), Ok(Some(u512(100)))), DeployStep::CheckPayment);
    assert_eq!(
        a.handle_balance(h(9), Ok(Some(u512(99)))),
        DeployStep::Invalid(Error::InvalidDeployParameters { prestate_hash: h(9), failure: DeployParameterFailure::InsufficientBalance })
    );
    assert_eq!(a.handle_balance(h(9), Err(())), DeployStep::CheckPayment);
}

#[test]
fn deploy_acceptor_checks_items_and_finishes() {
    let a = deploy_acceptor();
    assert_eq!(a.check_item(h(9), h(3), &DeployItemIdentifier::Module, DeployStep::CheckSession), DeployStep::CheckSession);
    match a.check_item(h(9), h(3), &DeployItemIdentifier::Contract(ContractIdentifier::Name("c".to_string())), DeployStep::CheckSession) {
        DeployStep::QueryContract(q) => {
            assert_eq!(q.key, h(3));
            assert_eq!(q.path, vec!["c".to_string()]);
        }
        other => panic!("unexpected {:?}", other),
    }
    assert_eq!(
        a.handle_contract_query(h(9), h(3), ContractIdentifier::Name("c".to_string()), "go".to_string(), QueryOutcome::Success(StoredValueKind::Contract { has_entry_point: false })),
        Err(Error::InvalidDeployParameters {
            prestate_hash: h(9),
            failure: DeployParameterFailure::NonexistentContractEntryPoint { entry_point: "go".to_string() }
        })
    );
    assert_eq!(
        a.handle_package_query(h(9), h(6), ContractIdentifier::Hash(h(6)), "go".to_string(), QueryOutcome::Success(StoredValueKind::Other)),
        Err(Error::InvalidDeployParameters {
            prestate_hash: h(9),
            failure: DeployParameterFailure::NonexistentContractPackageAtHash { contract_package_hash: h(6) }
        })
    );
    assert_eq!(
        a.handle_package_query(h(9), h(6), ContractIdentifier::Hash(h(6)), "go".to_string(), QueryOutcome::Failed("io".to_string())),
        Err(Error::InvalidDeployParameters {
            prestate_hash: h(9),
            failure: DeployParameterFailure::InvalidQuery { key: h(6), message: "io".to_string() }
        })
    );
    assert_eq!(a.after_items(true), DeployStep::VerifyAccount);
    assert_eq!(a.after_items(false), DeployStep::CheckSignatures);
    assert_eq!(a.handle_verified_account(None), DeployStep::RespondError(Error::InvalidAccount));
    assert_eq!(a.handle_verified_account(Some(false)), DeployStep::RespondError(Error::InsufficientBalance));
    assert_eq!(a.handle_verified_account(Some(true)), DeployStep::CheckSignatures);
    assert_eq!(a.handle_signatures(Err("sig".to_string())), Err(Error::InvalidDeployConfiguration("sig".to_string())));
    assert!(a.handle_put_to_storage(true));
}
