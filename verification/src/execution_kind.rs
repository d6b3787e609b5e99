//! Units of execution: what a transaction's executable item runs, and for an
//! invocation of a stored contract, which contract version it reaches.
//!
//! Named keys and packages are read from global state before the decision;
//! they arrive here as plain values.

use vstd::prelude::*;

use crate::hash32::Hash32;
use crate::text::str_eq;

verus! {

/// The address of an addressable entity.
#[derive(Copy, Clone, Debug, PartialEq, Eq)]
pub enum EntityAddr {
    System(Hash32),
    Account(Hash32),
    SmartContract(Hash32),
}

impl EntityAddr {
    /// The address's bytes.
    pub open spec fn spec_value(self) -> Hash32 {
        match self {
            EntityAddr::System(a) => a,
            EntityAddr::Account(a) => a,
            EntityAddr::SmartContract(a) => a,
        }
    }

    /// The address's bytes.
    pub fn value(&self) -> (r: Hash32)
        ensures
            r == self.spec_value(),
    {
        match self {
            EntityAddr::System(a) => *a,
            EntityAddr::Account(a) => *a,
            EntityAddr::SmartContract(a) => *a,
        }
    }
}

/// A key under which a named key points into global state.
#[derive(Copy, Clone, Debug, PartialEq, Eq)]
pub enum Key {
    Account(Hash32),
    Hash(Hash32),
    URef(Hash32),
    AddressableEntity(EntityAddr),
    SmartContract(Hash32),
    /// A key of another kind.
    Other,
}

/// A version of an entity in a package: the protocol's major version and the
/// entity's version within it, ordered in that order.
#[derive(Copy, Clone, Debug, PartialEq, Eq, Structural)]
pub struct EntityVersionKey {
    pub protocol_version_major: u32,
    pub entity_version: u32,
}

/// Whether version `a` precedes version `b`.
pub open spec fn version_lt(a: EntityVersionKey, b: EntityVersionKey) -> bool {
    a.protocol_version_major < b.protocol_version_major || (a.protocol_version_major == b.protocol_version_major
        && a.entity_version < b.entity_version)
}

fn version_less(a: &EntityVersionKey, b: &EntityVersionKey) -> (r: bool)
    ensures
        r == version_lt(*a, *b),
        a.protocol_version_major < b.protocol_version_major ==> r,
        a.protocol_version_major > b.protocol_version_major ==> !r,
        a.protocol_version_major == b.protocol_version_major ==> (r <==> a.entity_version < b.entity_version),
{
    a.protocol_version_major < b.protocol_version_major || (a.protocol_version_major == b.protocol_version_major
        && a.entity_version < b.entity_version)
}

/// The versions of a package and which of them are disabled.
#[derive(Clone, Debug, PartialEq, Eq)]
pub struct Package {
    /// Each version with the entity it points to.
    pub versions: Vec<(EntityVersionKey, EntityAddr)>,
    pub disabled_versions: Vec<EntityVersionKey>,
}

impl Package {
    /// Whether the package has no entity at this version.
    pub open spec fn version_missing(&self, k: EntityVersionKey) -> bool {
        forall|i: int| 0 <= i < self.versions@.len() ==> (#[trigger] self.versions@[i]).0 != k
    }

    /// Whether the version is present and not disabled.
    pub open spec fn version_enabled(&self, k: EntityVersionKey) -> bool {
        !self.version_missing(k) && !self.disabled_versions@.contains(k)
    }

    /// Whether `k` is the latest enabled version.
    pub open spec fn is_current(&self, k: EntityVersionKey) -> bool {
        &&& self.version_enabled(k)
        &&& forall|i: int|
            0 <= i < self.versions@.len() && self.version_enabled(#[trigger] self.versions@[i].0) ==> !version_lt(
                k,
                self.versions@[i].0,
            )
    }

    /// The entity of the first entry for version `k`.
    pub open spec fn entity_at(&self, k: EntityVersionKey) -> Option<EntityAddr> {
        if self.version_missing(k) {
            None
        } else {
            let i = choose|i: int| 0 <= i < self.versions@.len() && self.versions@[i].0 == k && forall|j: int|
                0 <= j < i ==> (#[trigger] self.versions@[j]).0 != k;
            Some(self.versions@[i].1)
        }
    }

    /// Whether the version is one of the disabled ones.
    fn is_disabled(&self, k: &EntityVersionKey) -> (r: bool)
        ensures
            r == self.disabled_versions@.contains(*k),
    {
        let mut i: usize = 0;
        while i < self.disabled_versions.len()
            invariant
                i <= self.disabled_versions@.len(),
                forall|j: int| 0 <= j < i ==> self.disabled_versions@[j] != *k,
            decreases self.disabled_versions@.len() - i,
        {
            if self.disabled_versions[i] == *k {
                assert(self.disabled_versions@[i as int] == *k);
                return true;
            }
            i += 1;
        }
        false
    }

    /// The entity the package has at a version.
    pub fn lookup_entity_hash(&self, k: &EntityVersionKey) -> (r: Option<EntityAddr>)
        ensures
            r == self.entity_at(*k),
    {
        let mut i: usize = 0;
        while i < self.versions.len()
            invariant
                i <= self.versions@.len(),
                forall|j: int| 0 <= j < i ==> (#[trigger] self.versions@[j]).0 != *k,
            decreases self.versions@.len() - i,
        {
            if self.versions[i].0 == *k {
                proof {
                    let c = choose|c: int| 0 <= c < self.versions@.len() && self.versions@[c].0 == *k && forall|j: int|
                        0 <= j < c ==> (#[trigger] self.versions@[j]).0 != *k;
                    assert(0 <= i && self.versions@[i as int].0 == *k && forall|j: int|
                        0 <= j < i ==> (#[trigger] self.versions@[j]).0 != *k);
                    if c < i {
                        assert(self.versions@[c].0 != *k);
                    } else if c > i {
                        assert(self.versions@[i as int].0 != *k);
                    }
                }
                return Some(self.versions[i].1);
            }
            i += 1;
        }
        None
    }

    /// Whether the package has no entity at this version.
    pub fn is_version_missing(&self, k: &EntityVersionKey) -> (r: bool)
        ensures
            r == self.version_missing(*k),
    {
        self.lookup_entity_hash(k).is_none()
    }

    /// Whether the version is present and not disabled.
    pub fn is_version_enabled(&self, k: &EntityVersionKey) -> (r: bool)
        ensures
            r == self.version_enabled(*k),
    {
        !self.is_version_missing(k) && !self.is_disabled(k)
    }

    /// The latest enabled version, if any.
    pub fn current_entity_version(&self) -> (r: Option<EntityVersionKey>)
        ensures
            r matches Some(k) ==> self.is_current(k),
            r matches Some(k) ==> self.version_enabled(k) && forall|i: int|
                0 <= i < self.versions@.len() && self.version_enabled(#[trigger] self.versions@[i].0) ==> {
                    let v = self.versions@[i].0;
                    &&& v.protocol_version_major <= k.protocol_version_major
                    &&& v.protocol_version_major == k.protocol_version_major ==> v.entity_version <= k.entity_version
                },
            r is None ==> forall|i: int| 0 <= i < self.versions@.len() ==> !self.version_enabled(#[trigger] self.versions@[i].0),
    {
        let mut best: Option<EntityVersionKey> = None;
        let mut i: usize = 0;
        while i < self.versions.len()
            invariant
                i <= self.versions@.len(),
                best matches Some(b) ==> self.version_enabled(b),
                forall|j: int| 0 <= j < i && self.version_enabled(#[trigger] self.versions@[j].0) ==> (best matches Some(
                    b,
                ) && !version_lt(b, self.versions@[j].0)),
            decreases self.versions@.len() - i,
        {
            let k = self.versions[i].0;
            if self.is_version_enabled(&k) {
                match best {
                    Some(b) => {
                        if version_less(&b, &k) {
                            best = Some(k);
                        }
                    },
                    None => {
                        best = Some(k);
                    },
                }
            }
            i += 1;
        }
        proof {
            if best is Some {
                law_current_version_is_latest(*self, best->Some_0);
            }
        }
        best
    }
}

/// Versions are ordered by the protocol's major version first, then by the
/// entity's version within it: a version of a later major version comes
/// after every version of an earlier one, whatever their entity versions;
/// the order is strict and total.
pub proof fn law_version_order(a: EntityVersionKey, b: EntityVersionKey)
    ensures
        a.protocol_version_major < b.protocol_version_major ==> version_lt(a, b) && !version_lt(b, a),
        a.protocol_version_major == b.protocol_version_major ==> (version_lt(a, b) <==> a.entity_version
            < b.entity_version),
        !version_lt(a, a),
        a != b ==> version_lt(a, b) || version_lt(b, a),
        !(version_lt(a, b) && version_lt(b, a)),
{
}

/// The current version of a package is the latest enabled one: no enabled
/// version has a greater protocol major version, and of those with the same
/// major version none has a greater entity version.
pub proof fn law_current_version_is_latest(package: Package, k: EntityVersionKey)
    requires
        package.is_current(k),
    ensures
        package.version_enabled(k),
        forall|i: int|
            0 <= i < package.versions@.len() && package.version_enabled(#[trigger] package.versions@[i].0) ==> {
                let v = package.versions@[i].0;
                &&& v.protocol_version_major <= k.protocol_version_major
                &&& v.protocol_version_major == k.protocol_version_major ==> v.entity_version <= k.entity_version
            },
{
}

/// How a stored contract is invoked.
#[derive(Clone, Debug, PartialEq, Eq)]
pub enum TransactionInvocationTarget {
    /// By the entity's address.
    ByHash(Hash32),
    /// By a named key of the caller that holds the entity's address.
    ByName(String),
    /// By the package's address, at a version or the current one.
    ByPackageHash { addr: Hash32, version_key: Option<EntityVersionKey> },
    /// By a named key of the caller that holds the package's address.
    ByPackageName { name: String, version_key: Option<EntityVersionKey> },
}

/// The kind of session bytes.
#[derive(Copy, Clone, Debug, PartialEq, Eq, Structural)]
pub enum SessionKind {
    GenericBytecode,
    InstallUpgradeBytecode,
}

/// What a transaction executes.
#[derive(Clone, Debug, PartialEq, Eq)]
pub enum ExecutableItem {
    Invocation(TransactionInvocationTarget),
    PaymentBytes(Vec<u8>),
    SessionBytes { kind: SessionKind, module_bytes: Vec<u8> },
    Deploy(Vec<u8>),
}

/// Why no unit of execution could be determined.
#[derive(Clone, Debug, PartialEq, Eq)]
pub enum ExecutionKindError {
    /// The caller has no named key of this name.
    NamedKeyNotFound(String),
    /// A named key holds a key of the wrong kind.
    InvalidKeyVariant(Key),
    /// Global state holds no package at this address.
    PackageNotFound(Hash32),
    /// The package has no enabled version.
    NoActiveEntityVersions(Hash32),
    /// The package has no entity at this version.
    MissingEntityVersion(EntityVersionKey),
    /// The version is disabled.
    DisabledEntityVersion(EntityVersionKey),
    /// The version does not lead to an entity.
    InvalidEntityVersion(EntityVersionKey),
}

/// The type of execution about to be performed.
#[derive(Clone, Debug, PartialEq, Eq)]
pub enum ExecutionKind<'a> {
    /// Standard Wasm bytes of a transaction of version 1 or later.
    Standard(&'a Vec<u8>),
    /// Wasm bytes which install or upgrade a stored entity.
    InstallerUpgrader(&'a Vec<u8>),
    /// A stored contract.
    Stored { entity_hash: Hash32, entry_point: String },
    /// Standard Wasm bytes of a `Deploy`, which may install or upgrade stored entities.
    Deploy(&'a Vec<u8>),
}

/// The key of the first named key with this name.
pub open spec fn named_key(named_keys: Seq<(String, Key)>, name: Seq<char>) -> Option<Key> {
    if exists|i: int| 0 <= i < named_keys.len() && (#[trigger] named_keys[i]).0@ == name {
        let i = choose|i: int| 0 <= i < named_keys.len() && named_keys[i].0@ == name && forall|j: int|
            0 <= j < i ==> (#[trigger] named_keys[j]).0@ != name;
        Some(named_keys[i].1)
    } else {
        None
    }
}

/// The package stored at an address, if any.
pub open spec fn package_at(packages: Seq<(Hash32, Package)>, addr: Hash32) -> Option<Package> {
    if exists|i: int| 0 <= i < packages.len() && (#[trigger] packages[i]).0 == addr {
        let i = choose|i: int| 0 <= i < packages.len() && packages[i].0 == addr && forall|j: int|
            0 <= j < i ==> (#[trigger] packages[j]).0 != addr;
        Some(packages[i].1)
    } else {
        None
    }
}

/// The entity that a version of a package leads to: the given version, or
/// else the current one.
pub open spec fn package_entity(
    package: Package,
    package_hash: Hash32,
    version_key: Option<EntityVersionKey>,
) -> Result<Hash32, ExecutionKindError> {
    let k = match version_key {
        Some(k) => Some(k),
        None => if exists|k: EntityVersionKey| package.is_current(k) {
            Some(choose|k: EntityVersionKey| package.is_current(k))
        } else {
            None
        },
    };
    match k {
        None => Err(ExecutionKindError::NoActiveEntityVersions(package_hash)),
        Some(k) => if package.version_missing(k) {
            Err(ExecutionKindError::MissingEntityVersion(k))
        } else if !package.version_enabled(k) {
            Err(ExecutionKindError::DisabledEntityVersion(k))
        } else {
            match package.entity_at(k) {
                Some(a) => Ok(a.spec_value()),
                None => Err(ExecutionKindError::InvalidEntityVersion(k)),
            }
        },
    }
}

/// The entity of a package read from global state.
pub open spec fn stored_package_entity(
    packages: Seq<(Hash32, Package)>,
    package_hash: Hash32,
    version_key: Option<EntityVersionKey>,
) -> Result<Hash32, ExecutionKindError> {
    match package_at(packages, package_hash) {
        None => Err(ExecutionKindError::PackageNotFound(package_hash)),
        Some(p) => package_entity(p, package_hash, version_key),
    }
}

/// The entity an invocation target reaches.
pub open spec fn invoked_entity(
    named_keys: Seq<(String, Key)>,
    packages: Seq<(Hash32, Package)>,
    target: TransactionInvocationTarget,
) -> Result<Hash32, ExecutionKindError> {
    match target {
        TransactionInvocationTarget::ByHash(addr) => Ok(addr),
        TransactionInvocationTarget::ByName(alias) => match named_key(named_keys, alias@) {
            None => Err(ExecutionKindError::NamedKeyNotFound(alias)),
            Some(Key::Hash(h)) => Ok(h),
            Some(Key::AddressableEntity(a)) => Ok(a.spec_value()),
            Some(k) => Err(ExecutionKindError::InvalidKeyVariant(k)),
        },
        TransactionInvocationTarget::ByPackageHash { addr, version_key } => stored_package_entity(
            packages,
            addr,
            version_key,
        ),
        TransactionInvocationTarget::ByPackageName { name, version_key } => match named_key(named_keys, name@) {
            None => Err(ExecutionKindError::NamedKeyNotFound(name)),
            Some(Key::Hash(h)) => stored_package_entity(packages, h, version_key),
            Some(Key::SmartContract(h)) => stored_package_entity(packages, h, version_key),
            Some(k) => Err(ExecutionKindError::InvalidKeyVariant(k)),
        },
    }
}

/// The key of the first named key with this name.
pub fn get_named_key(named_keys: &Vec<(String, Key)>, name: &String) -> (r: Option<Key>)
    ensures
        r == named_key(named_keys@, name@),
{
    let mut i: usize = 0;
    while i < named_keys.len()
        invariant
            i <= named_keys@.len(),
            forall|j: int| 0 <= j < i ==> (#[trigger] named_keys@[j]).0@ != name@,
        decreases named_keys@.len() - i,
    {
        if str_eq(named_keys[i].0.as_str(), name.as_str()) {
            proof {
                let c = choose|c: int| 0 <= c < named_keys@.len() && named_keys@[c].0@ == name@ && forall|j: int|
                    0 <= j < c ==> (#[trigger] named_keys@[j]).0@ != name@;
                assert(named_keys@[i as int].0@ == name@);
                if c < i {
                    assert(named_keys@[c].0@ != name@);
                } else if c > i {
                    assert(named_keys@[i as int].0@ != name@);
                }
            }
            return Some(named_keys[i].1);
        }
        i += 1;
    }
    None
}

/// The package stored at an address, if any.
pub fn get_package<'p>(packages: &'p Vec<(Hash32, Package)>, addr: &Hash32) -> (r: Option<&'p Package>)
    ensures
        match r {
            Some(p) => package_at(packages@, *addr) == Some(*p),
            None => package_at(packages@, *addr) is None,
        },
{
    let mut i: usize = 0;
    while i < packages.len()
        invariant
            i <= packages@.len(),
            forall|j: int| 0 <= j < i ==> (#[trigger] packages@[j]).0 != *addr,
        decreases packages@.len() - i,
    {
        if packages[i].0.same_as(addr) {
            proof {
                let c = choose|c: int| 0 <= c < packages@.len() && packages@[c].0 == *addr && forall|j: int|
                    0 <= j < c ==> (#[trigger] packages@[j]).0 != *addr;
                assert(packages@[i as int].0 == *addr);
                if c < i {
                    assert(packages@[c].0 != *addr);
                } else if c > i {
                    assert(packages@[i as int].0 != *addr);
                }
            }
            return Some(&packages[i].1);
        }
        i += 1;
    }
    None
}

/// The entity that a version of a package leads to.
fn resolve_package_entity(
    package: &Package,
    package_hash: Hash32,
    version_key: Option<EntityVersionKey>,
) -> (r: Result<Hash32, ExecutionKindError>)
    ensures
        r == package_entity(*package, package_hash, version_key),
{
    let key = match version_key {
        Some(k) => Some(k),
        None => {
            let c = package.current_entity_version();
            proof {
                match c {
                    Some(k) => {
                        let d = choose|d: EntityVersionKey| package.is_current(d);
                        assert(package.is_current(d));
                        let ik = choose|i: int| 0 <= i < package.versions@.len() && package.versions@[i].0 == k;
                        let id = choose|i: int| 0 <= i < package.versions@.len() && package.versions@[i].0 == d;
                        assert(!version_lt(k, package.versions@[id].0));
                        assert(!version_lt(d, package.versions@[ik].0));
                    },
                    None => {
                        assert forall|d: EntityVersionKey| !package.is_current(d) by {
                            if package.is_current(d) {
                                let id = choose|i: int| 0 <= i < package.versions@.len() && package.versions@[i].0 == d;
                                assert(!package.version_enabled(package.versions@[id].0));
                            }
                        }
                    },
                }
            }
            c
        },
    };
    let k = match key {
        Some(k) => k,
        None => return Err(ExecutionKindError::NoActiveEntityVersions(package_hash)),
    };
    if package.is_version_missing(&k) {
        return Err(ExecutionKindError::MissingEntityVersion(k));
    }
    if !package.is_version_enabled(&k) {
        return Err(ExecutionKindError::DisabledEntityVersion(k));
    }
    match package.lookup_entity_hash(&k) {
        Some(a) => Ok(a.value()),
        None => Err(ExecutionKindError::InvalidEntityVersion(k)),
    }
}

/// The entity of a package read from global state.
fn resolve_stored_package(
    packages: &Vec<(Hash32, Package)>,
    package_hash: Hash32,
    version_key: Option<EntityVersionKey>,
) -> (r: Result<Hash32, ExecutionKindError>)
    ensures
        r == stored_package_entity(packages@, package_hash, version_key),
{
    match get_package(packages, &package_hash) {
        Some(p) => resolve_package_entity(p, package_hash, version_key),
        None => Err(ExecutionKindError::PackageNotFound(package_hash)),
    }
}

impl<'a> ExecutionKind<'a> {
    /// The unit of execution of an executable item, resolving an invocation
    /// through the caller's named keys and the packages in global state.
    pub fn new(
        packages: &Vec<(Hash32, Package)>,
        named_keys: &Vec<(String, Key)>,
        executable_item: &'a ExecutableItem,
        entry_point: String,
    ) -> (r: Result<Self, ExecutionKindError>)
        ensures
            match executable_item {
                ExecutableItem::Invocation(target) => r == match invoked_entity(named_keys@, packages@, *target) {
                    Ok(entity_hash) => Ok(ExecutionKind::Stored { entity_hash, entry_point }),
                    Err(e) => Err(e),
                },
                ExecutableItem::PaymentBytes(b) => r == Ok::<Self, ExecutionKindError>(ExecutionKind::Standard(b)),
                ExecutableItem::SessionBytes { kind: SessionKind::GenericBytecode, module_bytes } => r == Ok::<
                    Self,
                    ExecutionKindError,
                >(ExecutionKind::Standard(module_bytes)),
                ExecutableItem::SessionBytes { kind: SessionKind::InstallUpgradeBytecode, module_bytes } => r == Ok::<
                    Self,
                    ExecutionKindError,
                >(ExecutionKind::InstallerUpgrader(module_bytes)),
                ExecutableItem::Deploy(b) => r == Ok::<Self, ExecutionKindError>(ExecutionKind::Deploy(b)),
            },
    {
        match executable_item {
            ExecutableItem::Invocation(target) => Self::new_direct_invocation(packages, named_keys, target, entry_point),
            ExecutableItem::PaymentBytes(module_bytes) => Ok(ExecutionKind::Standard(module_bytes)),
            ExecutableItem::SessionBytes { kind: SessionKind::GenericBytecode, module_bytes } => Ok(
                ExecutionKind::Standard(module_bytes),
            ),
            ExecutableItem::SessionBytes { kind: SessionKind::InstallUpgradeBytecode, module_bytes } => Ok(
                ExecutionKind::InstallerUpgrader(module_bytes),
            ),
            ExecutableItem::Deploy(module_bytes) => Ok(ExecutionKind::Deploy(module_bytes)),
        }
    }

    /// The stored contract an invocation target reaches.
    pub fn new_direct_invocation(
        packages: &Vec<(Hash32, Package)>,
        named_keys: &Vec<(String, Key)>,
        target: &TransactionInvocationTarget,
        entry_point: String,
    ) -> (r: Result<Self, ExecutionKindError>)
        ensures
            r == match invoked_entity(named_keys@, packages@, *target) {
                Ok(entity_hash) => Ok(ExecutionKind::Stored { entity_hash, entry_point }),
                Err(e) => Err(e),
            },
    {
        let entity_hash = match target {
            TransactionInvocationTarget::ByHash(addr) => *addr,
            TransactionInvocationTarget::ByName(alias) => match get_named_key(named_keys, alias) {
                None => return Err(ExecutionKindError::NamedKeyNotFound(alias.clone())),
                Some(Key::Hash(hash)) => hash,
                Some(Key::AddressableEntity(entity_addr)) => entity_addr.value(),
                Some(k) => return Err(ExecutionKindError::InvalidKeyVariant(k)),
            },
            TransactionInvocationTarget::ByPackageHash { addr, version_key } => {
                match resolve_stored_package(packages, *addr, *version_key) {
                    Ok(h) => h,
                    Err(e) => return Err(e),
                }
            },
            TransactionInvocationTarget::ByPackageName { name, version_key } => {
                let package_hash = match get_named_key(named_keys, name) {
                    None => return Err(ExecutionKindError::NamedKeyNotFound(name.clone())),
                    Some(Key::Hash(hash)) => hash,
                    Some(Key::SmartContract(hash)) => hash,
                    Some(k) => return Err(ExecutionKindError::InvalidKeyVariant(k)),
                };
                match resolve_stored_package(packages, package_hash, *version_key) {
                    Ok(h) => h,
                    Err(e) => return Err(e),
                }
            },
        };
        Ok(ExecutionKind::Stored { entity_hash, entry_point })
    }
}

} // verus!
