//! The arguments of a native burn: which purse the tokens are burnt from,
//! and how many.
//!
//! The runtime arguments arrive decoded by their type: a value of the
//! expected type, or the message of its decoding error. Whether a purse
//! exists is read from global state by the caller when asked.

use vstd::prelude::*;

use crate::executor::URef;
use crate::transaction_acceptor::U512;

verus! {

/// The access right to write through a reference.
pub const ACCESS_WRITE: u8 = 2;

/// A runtime argument, by the type it was given with.
#[derive(Debug, PartialEq, Eq)]
pub enum ArgValue {
    URef(Result<URef, String>),
    OptionURef(Result<Option<URef>, String>),
    U512(Result<U512, String>),
    U64(Result<u64, String>),
    /// A value of another type.
    Other,
}

/// Resolves the arguments a burn is asked with into [`BurnArgs`].
#[derive(Debug, PartialEq, Eq)]
pub struct BurnRuntimeArgsBuilder {
    pub source: Option<ArgValue>,
    pub amount: Option<ArgValue>,
}

/// A named key of the account that burns.
#[derive(Clone, Debug, PartialEq, Eq)]
pub enum NamedKey {
    /// A reference, with its access rights.
    URef(URef),
    /// A key of another kind, by the name of its kind.
    Other(String),
}

/// What the burn reads of the account that burns.
#[derive(Clone, Debug, PartialEq, Eq)]
pub struct RuntimeFootprint {
    pub main_purse: Option<URef>,
    pub named_keys: Vec<NamedKey>,
}

/// Why a burn cannot be made.
#[derive(Clone, Debug, PartialEq, Eq)]
pub enum BurnError {
    UnexpectedKeyVariant(String),
    TypeMismatch { expected: String, found: String },
    ForgedReference(URef),
    InvalidAccess { required: u8 },
    CLValue(String),
    InvalidPurse,
    InvalidArgument,
    MissingArgument,
    AttemptToBurnZero,
    InvalidOperation,
    RestrictedBurnAttempted,
    UnableToVerifyTargetIsAdmin,
    TrackingCopy(String),
    Mint(String),
}

/// The arguments of the mint's burn.
#[derive(Clone, Copy, Debug, PartialEq, Eq)]
pub struct BurnArgs {
    pub source: URef,
    pub amount: U512,
}

impl BurnArgs {
    /// Burn arguments with this source and amount.
    pub fn new(source: URef, amount: U512) -> (r: BurnArgs)
        ensures
            r.source == source,
            r.amount == amount,
    {
        BurnArgs { source, amount }
    }

    /// The purse the tokens are burnt from.
    pub fn source(&self) -> (r: URef)
        ensures
            r == self.source,
    {
        self.source
    }

    /// How many tokens are burnt.
    pub fn amount(&self) -> (r: U512)
        ensures
            r == self.amount,
    {
        self.amount
    }
}

/// Where resolving the source purse stands.
#[derive(Clone, Debug, PartialEq, Eq)]
pub enum SourceStep {
    /// The source purse.
    Resolved(URef),
    /// The account holds `named` writeable: check that it is a purse, then
    /// report with [`source_after_purse_check`].
    CheckPurse { named: URef, source: URef },
    Failed(BurnError),
}

/// The account's main purse, or the error when it has none.
pub open spec fn main_purse_or_error(account: RuntimeFootprint) -> SourceStep {
    match account.main_purse {
        Some(p) => SourceStep::Resolved(p),
        None => SourceStep::Failed(BurnError::InvalidOperation),
    }
}

/// The index of the first named key that is a reference to the same
/// address, or the number of named keys if there is none.
pub open spec fn first_named(keys: Seq<NamedKey>, addr: crate::hash32::Hash32, from: int) -> int
    decreases keys.len() - from,
{
    if from >= keys.len() {
        keys.len() as int
    } else if keys[from] matches NamedKey::URef(u) && u.addr == addr {
        from
    } else {
        first_named(keys, addr, from + 1)
    }
}

/// The first named key found is a reference to the address.
pub proof fn lemma_first_named(keys: Seq<NamedKey>, addr: crate::hash32::Hash32, from: int)
    requires
        0 <= from,
    ensures
        from <= first_named(keys, addr, from) <= keys.len() || (from > keys.len() && first_named(keys, addr, from)
            == keys.len()),
        first_named(keys, addr, from) < keys.len() ==> (keys[first_named(keys, addr, from)] matches NamedKey::URef(
            u,
        ) && u.addr == addr),
    decreases keys.len() - from,
{
    if from < keys.len() && !(keys[from] matches NamedKey::URef(u) && u.addr == addr) {
        lemma_first_named(keys, addr, from + 1);
    }
}

/// The step for a source reference given explicitly: the main purse is
/// taken as it is; otherwise the account must hold the reference among its
/// named keys, with the right to write.
pub open spec fn explicit_source_step(account: RuntimeFootprint, uref: URef) -> SourceStep {
    match account.main_purse {
        None => SourceStep::Failed(BurnError::InvalidOperation),
        Some(main) => if main.addr == uref.addr {
            SourceStep::Resolved(uref)
        } else {
            let i = first_named(account.named_keys@, uref.addr, 0);
            if i >= account.named_keys@.len() {
                SourceStep::Failed(BurnError::ForgedReference(uref))
            } else {
                let found = account.named_keys@[i]->URef_0;
                if found.access_rights & ACCESS_WRITE != 0 {
                    SourceStep::CheckPurse { named: found, source: uref }
                } else {
                    SourceStep::Failed(BurnError::InvalidAccess { required: ACCESS_WRITE })
                }
            }
        },
    }
}

/// Whether `r` is the step that resolving the source gives: without a
/// source argument, or with an empty optional one, the main purse; a
/// reference must decode and pass [`explicit_source_step`]; an argument of
/// another type is invalid.
pub open spec fn source_step(args: BurnRuntimeArgsBuilder, account: RuntimeFootprint, r: SourceStep) -> bool {
    match args.source {
        None => r == main_purse_or_error(account),
        Some(ArgValue::URef(Err(e))) => r matches SourceStep::Failed(BurnError::CLValue(m)) && m@ == e@,
        Some(ArgValue::URef(Ok(u))) => r == explicit_source_step(account, u),
        Some(ArgValue::OptionURef(Err(e))) => r matches SourceStep::Failed(BurnError::CLValue(m)) && m@ == e@,
        Some(ArgValue::OptionURef(Ok(None))) => r == main_purse_or_error(account),
        Some(ArgValue::OptionURef(Ok(Some(u)))) => r == explicit_source_step(account, u),
        Some(_) => r == SourceStep::Failed(BurnError::InvalidArgument),
    }
}

/// The main purse, or the error when the account has none.
fn main_purse_step(account: &RuntimeFootprint) -> (r: SourceStep)
    ensures
        r == main_purse_or_error(*account),
{
    match account.main_purse {
        Some(p) => SourceStep::Resolved(p),
        None => SourceStep::Failed(BurnError::InvalidOperation),
    }
}

/// Looks for the first named key that is a reference to the address.
fn find_named(keys: &Vec<NamedKey>, addr: crate::hash32::Hash32) -> (r: usize)
    ensures
        r == first_named(keys@, addr, 0),
{
    let mut i: usize = 0;
    while i < keys.len()
        invariant
            i <= keys@.len(),
            first_named(keys@, addr, 0) == first_named(keys@, addr, i as int),
        decreases keys@.len() - i,
    {
        match &keys[i] {
            NamedKey::URef(u) => {
                if u.addr.same_as(&addr) {
                    return i;
                }
            },
            NamedKey::Other(_) => {},
        }
        i += 1;
    }
    i
}

/// The step for an explicitly given source reference.
fn explicit_source(account: &RuntimeFootprint, uref: URef) -> (r: SourceStep)
    ensures
        r == explicit_source_step(*account, uref),
{
    let main = match account.main_purse {
        None => {
            return SourceStep::Failed(BurnError::InvalidOperation);
        },
        Some(main) => main,
    };
    if main.addr.same_as(&uref.addr) {
        return SourceStep::Resolved(uref);
    }
    let i = find_named(&account.named_keys, uref.addr);
    proof {
        lemma_first_named(account.named_keys@, uref.addr, 0);
    }
    if i >= account.named_keys.len() {
        return SourceStep::Failed(BurnError::ForgedReference(uref));
    }
    match &account.named_keys[i] {
        NamedKey::URef(found) => {
            if found.access_rights & ACCESS_WRITE != 0 {
                SourceStep::CheckPurse { named: *found, source: uref }
            } else {
                SourceStep::Failed(BurnError::InvalidAccess { required: ACCESS_WRITE })
            }
        },
        NamedKey::Other(_) => {
            proof {
                assert(false);
            }
            SourceStep::Failed(BurnError::InvalidArgument)
        },
    }
}

impl BurnRuntimeArgsBuilder {
    /// A builder over the runtime arguments of a burn.
    pub fn new(source: Option<ArgValue>, amount: Option<ArgValue>) -> (r: BurnRuntimeArgsBuilder)
        ensures
            r.source == source,
            r.amount == amount,
    {
        BurnRuntimeArgsBuilder { source, amount }
    }

/// Resolves the purse the tokens are burnt from.
pub fn resolve_source_uref(&self, account: &RuntimeFootprint) -> (r: SourceStep)
    ensures
        source_step(*self, *account, r),
{
    match &self.source {
        None => main_purse_step(account),
        Some(ArgValue::URef(Err(e))) => SourceStep::Failed(BurnError::CLValue(e.clone())),
        Some(ArgValue::URef(Ok(u))) => explicit_source(account, *u),
        Some(ArgValue::OptionURef(Err(e))) => SourceStep::Failed(BurnError::CLValue(e.clone())),
        Some(ArgValue::OptionURef(Ok(None))) => main_purse_step(account),
        Some(ArgValue::OptionURef(Ok(Some(u)))) => explicit_source(account, *u),
        Some(_) => SourceStep::Failed(BurnError::InvalidArgument),
    }
}
}

/// The source after the named reference was checked to be a purse.
pub fn source_after_purse_check(purse_exists: bool, source: URef) -> (r: Result<URef, BurnError>)
    ensures
        r == if purse_exists {
            Ok::<URef, BurnError>(source)
        } else {
            Err(BurnError::InvalidPurse)
        },
{
    if purse_exists {
        Ok(source)
    } else {
        Err(BurnError::InvalidPurse)
    }
}

/// Whether a number is zero.
pub open spec fn is_zero(v: U512) -> bool {
    forall|i: int| 0 <= i < 8 ==> v.words@[i] == 0
}

/// A 512-bit number from a 64-bit one.
pub open spec fn u512_from_u64(v: u64) -> U512 {
    U512 { words: [v, 0, 0, 0, 0, 0, 0, 0] }
}

/// Whether `r` is what resolving the amount gives: a 512-bit or 64-bit
/// number that decodes and is not zero.
pub open spec fn amount_result(args: BurnRuntimeArgsBuilder, r: Result<U512, BurnError>) -> bool {
    match args.amount {
        None => r == Err::<U512, BurnError>(BurnError::MissingArgument),
        Some(ArgValue::U512(Err(e))) => r matches Err(BurnError::CLValue(m)) && m@ == e@,
        Some(ArgValue::U512(Ok(v))) => r == if is_zero(v) {
            Err(BurnError::AttemptToBurnZero)
        } else {
            Ok::<U512, BurnError>(v)
        },
        Some(ArgValue::U64(Err(e))) => r matches Err(BurnError::CLValue(m)) && m@ == e@,
        Some(ArgValue::U64(Ok(v))) => r == if v == 0 {
            Err(BurnError::AttemptToBurnZero)
        } else {
            Ok::<U512, BurnError>(u512_from_u64(v))
        },
        Some(_) => r == Err::<U512, BurnError>(BurnError::InvalidArgument),
    }
}

/// Whether the number is zero.
fn u512_is_zero(v: &U512) -> (r: bool)
    ensures
        r == is_zero(*v),
{
    let mut i: usize = 0;
    while i < 8
        invariant
            i <= 8,
            forall|j: int| 0 <= j < i ==> v.words@[j] == 0,
        decreases 8 - i,
    {
        if v.words[i] != 0 {
            return false;
        }
        i += 1;
    }
    true
}

impl BurnRuntimeArgsBuilder {
/// Resolves how many tokens are burnt.
pub fn resolve_amount(&self) -> (r: Result<U512, BurnError>)
    ensures
        amount_result(*self, r),
{
    let amount = match &self.amount {
        None => {
            return Err(BurnError::MissingArgument);
        },
        Some(ArgValue::U512(Err(e))) => {
            return Err(BurnError::CLValue(e.clone()));
        },
        Some(ArgValue::U512(Ok(v))) => *v,
        Some(ArgValue::U64(Err(e))) => {
            return Err(BurnError::CLValue(e.clone()));
        },
        Some(ArgValue::U64(Ok(v))) => {
            let amount = U512 { words: [*v, 0, 0, 0, 0, 0, 0, 0] };
            assert(amount.words@[0] == *v);
            amount
        },
        Some(_) => {
            return Err(BurnError::InvalidArgument);
        },
    };
    if u512_is_zero(&amount) {
        return Err(BurnError::AttemptToBurnZero);
    }
    Ok(amount)
}

/// The burn arguments from the resolved source (`Err` if resolving it
/// failed) and the arguments' amount: the source's error comes first.
pub fn build(&self, source: Result<URef, BurnError>) -> (r: Result<BurnArgs, BurnError>)
    ensures
        match source {
            Err(e) => r == Err::<BurnArgs, BurnError>(e),
            Ok(s) => {
                &&& r is Ok <==> exists|a: U512| amount_result(*self, Ok(a))
                &&& r matches Ok(b) ==> b.source == s && amount_result(*self, Ok(b.amount))
                &&& r matches Err(e) ==> amount_result(*self, Err(e))
            },
        },
{
    let source = match source {
        Err(e) => {
            return Err(e);
        },
        Ok(s) => s,
    };
    match self.resolve_amount() {
        Ok(amount) => Ok(BurnArgs { source, amount }),
        Err(e) => {
            proof {
                if exists|a: U512| amount_result(*self, Ok(a)) {
                    let a = choose|a: U512| amount_result(*self, Ok(a));
                }
            }
            Err(e)
        },
    }
}

}

} // verus!
