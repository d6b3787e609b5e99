use casper_node_logic::execution_kind::{
    EntityAddr, EntityVersionKey, ExecutableItem, ExecutionKind, ExecutionKindError, Key, Package, SessionKind,
    TransactionInvocationTarget,
};
use casper_node_logic::hash32::Hash32;

fn h(b: u8) -> Hash32 {
    Hash32::new([b; 32])
}

fn v(major: u32, version: u32) -> EntityVersionKey {
    EntityVersionKey { protocol_version_major: major, entity_version: version }
}

fn package() -> Package {
    Package {
        versions: vec![
            (v(1, 1), EntityAddr::SmartContract(h(11))),
            (v(2, 1), EntityAddr::SmartContract(h(21))),
            (v(2, 2), EntityAddr::SmartContract(h(22))),
        ],
        disabled_versions: vec![v(2, 2)],
    }
}

fn named_keys() -> Vec<(String, Key)> {
    vec![
        ("entity".to_string(), Key::Hash(h(1))),
        ("addressable".to_string(), Key::AddressableEntity(EntityAddr::Account(h(2)))),
        ("pkg".to_string(), Key::SmartContract(h(7))),
        ("uref".to_string(), Key::URef(h(3))),
    ]
}

fn stored(entity: Hash32) -> ExecutionKind<'static> {
    ExecutionKind::Stored { entity_hash: entity, entry_point: "call".to_string() }
}

#[test]
fn bytes_become_standard_installer_or_deploy() {
    let packages = vec![];
    let nk = vec![];
    let payment = ExecutableItem::PaymentBytes(vec![1]);
    assert_eq!(ExecutionKind::new(&packages, &nk, &payment, "call".to_string()), Ok(ExecutionKind::Standard(&vec![1])));
    let generic = ExecutableItem::SessionBytes { kind: SessionKind::GenericBytecode, module_bytes: vec![2] };
    assert_eq!(ExecutionKind::new(&packages, &nk, &generic, "call".to_string()), Ok(ExecutionKind::Standard(&vec![2])));
    let install = ExecutableItem::SessionBytes { kind: SessionKind::InstallUpgradeBytecode, module_bytes: vec![3] };
    assert_eq!(
        ExecutionKind::new(&packages, &nk, &install, "call".to_string()),
        Ok(ExecutionKind::InstallerUpgrader(&vec![3]))
    );
    let deploy = ExecutableItem::Deploy(vec![4]);
    assert_eq!(ExecutionKind::new(&packages, &nk, &deploy, "call".to_string()), Ok(ExecutionKind::Deploy(&vec![4])));
}

#[test]
fn invocation_by_hash_and_name() {
    let packages = vec![];
    let nk = named_keys();
    let by_hash = ExecutableItem::Invocation(TransactionInvocationTarget::ByHash(h(9)));
    assert_eq!(ExecutionKind::new(&packages, &nk, &by_hash, "call".to_string()), Ok(stored(h(9))));
    let by_name = TransactionInvocationTarget::ByName("entity".to_string());
    assert_eq!(ExecutionKind::new_direct_invocation(&packages, &nk, &by_name, "call".to_string()), Ok(stored(h(1))));
    let by_addr = TransactionInvocationTarget::ByName("addressable".to_string());
    assert_eq!(ExecutionKind::new_direct_invocation(&packages, &nk, &by_addr, "call".to_string()), Ok(stored(h(2))));
    let missing = TransactionInvocationTarget::ByName("nope".to_string());
    assert_eq!(
        ExecutionKind::new_direct_invocation(&packages, &nk, &missing, "call".to_string()),
        Err(ExecutionKindError::NamedKeyNotFound("nope".to_string()))
    );
    let wrong = TransactionInvocationTarget::ByName("uref".to_string());
    assert_eq!(
        ExecutionKind::new_direct_invocation(&packages, &nk, &wrong, "call".to_string()),
        Err(ExecutionKindError::InvalidKeyVariant(Key::URef(h(3))))
    );
}

#[test]
fn invocation_by_package_picks_the_current_enabled_version() {
    let packages = vec![(h(7), package())];
    let nk = named_keys();
    let current = TransactionInvocationTarget::ByPackageHash { addr: h(7), version_key: None };
    // Version 2.2 is disabled, so 2.1 is the current one.
    assert_eq!(ExecutionKind::new_direct_invocation(&packages, &nk, &current, "call".to_string()), Ok(stored(h(21))));
    let by_name = TransactionInvocationTarget::ByPackageName { name: "pkg".to_string(), version_key: Some(v(1, 1)) };
    assert_eq!(ExecutionKind::new_direct_invocation(&packages, &nk, &by_name, "call".to_string()), Ok(stored(h(11))));
    let disabled = TransactionInvocationTarget::ByPackageHash { addr: h(7), version_key: Some(v(2, 2)) };
    assert_eq!(
        ExecutionKind::new_direct_invocation(&packages, &nk, &disabled, "call".to_string()),
        Err(ExecutionKindError::DisabledEntityVersion(v(2, 2)))
    );
    let missing = TransactionInvocationTarget::ByPackageHash { addr: h(7), version_key: Some(v(3, 1)) };
    assert_eq!(
        ExecutionKind::new_direct_invocation(&packages, &nk, &missing, "call".to_string()),
        Err(ExecutionKindError::MissingEntityVersion(v(3, 1)))
    );
    let unknown = TransactionInvocationTarget::ByPackageHash { addr: h(8), version_key: None };
    assert_eq!(
        ExecutionKind::new_direct_invocation(&packages, &nk, &unknown, "call".to_string()),
        Err(ExecutionKindError::PackageNotFound(h(8)))
    );
}

#[test]
fn package_without_enabled_versions_has_no_current_one() {
    let p = Package { versions: vec![(v(1, 1), EntityAddr::System(h(1)))], disabled_versions: vec![v(1, 1)] };
    assert_eq!(p.current_entity_version(), None);
    let packages = vec![(h(5), p)];
    let target = TransactionInvocationTarget::ByPackageHash { addr: h(5), version_key: None };
    assert_eq!(
        ExecutionKind::new_direct_invocation(&packages, &vec![], &target, "call".to_string()),
        Err(ExecutionKindError::NoActiveEntityVersions(h(5)))
    );
}
