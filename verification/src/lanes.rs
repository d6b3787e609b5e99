//! The lane a transaction is executed in, decided from its entry point, its
//! target and its pricing mode.
//!
//! The lookups of a wasm lane by payment or by size belong to the chainspec's
//! transaction configuration; their outcomes for the transaction at hand are
//! handed in as a [`WasmLaneLookup`].

use vstd::prelude::*;

verus! {

/// The lane of native mint transactions.
pub const MINT_LANE_ID: u8 = 0;

/// The lane of native auction transactions.
pub const AUCTION_LANE_ID: u8 = 1;

/// The lane of transactions that install or upgrade contracts.
pub const INSTALL_UPGRADE_LANE_ID: u8 = 2;

/// The entry point of a transaction.
#[derive(Clone, Debug, PartialEq, Eq)]
pub enum TransactionEntryPoint {
    Call,
    Custom(String),
    Transfer,
    Burn,
    AddBid,
    WithdrawBid,
    Delegate,
    Undelegate,
    Redelegate,
    ActivateBid,
    ChangeBidPublicKey,
    AddReservations,
    CancelReservations,
}

impl TransactionEntryPoint {
    /// Copies the entry point.
    pub fn copy(&self) -> (r: TransactionEntryPoint)
        ensures
            r == *self,
    {
        match self {
            TransactionEntryPoint::Call => TransactionEntryPoint::Call,
            TransactionEntryPoint::Custom(s) => TransactionEntryPoint::Custom(s.clone()),
            TransactionEntryPoint::Transfer => TransactionEntryPoint::Transfer,
            TransactionEntryPoint::Burn => TransactionEntryPoint::Burn,
            TransactionEntryPoint::AddBid => TransactionEntryPoint::AddBid,
            TransactionEntryPoint::WithdrawBid => TransactionEntryPoint::WithdrawBid,
            TransactionEntryPoint::Delegate => TransactionEntryPoint::Delegate,
            TransactionEntryPoint::Undelegate => TransactionEntryPoint::Undelegate,
            TransactionEntryPoint::Redelegate => TransactionEntryPoint::Redelegate,
            TransactionEntryPoint::ActivateBid => TransactionEntryPoint::ActivateBid,
            TransactionEntryPoint::ChangeBidPublicKey => TransactionEntryPoint::ChangeBidPublicKey,
            TransactionEntryPoint::AddReservations => TransactionEntryPoint::AddReservations,
            TransactionEntryPoint::CancelReservations => TransactionEntryPoint::CancelReservations,
        }
    }
}

/// Whether an entry point is one of the native mint entry points.
pub open spec fn is_mint_entry_point(e: TransactionEntryPoint) -> bool {
    e is Transfer || e is Burn
}

/// Whether an entry point is one of the native auction entry points.
pub open spec fn is_auction_entry_point(e: TransactionEntryPoint) -> bool {
    ||| e is AddBid
    ||| e is WithdrawBid
    ||| e is Delegate
    ||| e is Undelegate
    ||| e is Redelegate
    ||| e is ActivateBid
    ||| e is ChangeBidPublicKey
    ||| e is AddReservations
    ||| e is CancelReservations
}

/// The virtual machine a session runs on.
#[derive(Copy, Clone, Debug, PartialEq, Eq, Structural)]
pub enum TransactionRuntime {
    VmCasperV1,
    VmCasperV2,
}

/// What a transaction targets.
#[derive(Copy, Clone, Debug, PartialEq, Eq, Structural)]
pub enum TransactionTarget {
    /// The native system contracts.
    Native,
    /// A stored contract.
    Stored,
    /// Wasm shipped with the transaction.
    Session { is_install_upgrade: bool, runtime: TransactionRuntime },
}

/// How the transaction pays.
#[derive(Copy, Clone, Debug, PartialEq, Eq, Structural)]
pub enum PricingMode {
    PaymentLimited { payment_amount: u64 },
    Fixed { additional_computation_factor: u8 },
    Prepaid,
}

/// The wasm lanes the chainspec's configuration assigns this transaction:
/// by its payment amount (for payment-limited pricing) and by its size (for
/// fixed pricing); `None` where no lane fits.
#[derive(Copy, Clone, Debug, PartialEq, Eq, Structural)]
pub struct WasmLaneLookup {
    pub by_payment_limited: Option<u8>,
    pub by_size: Option<u8>,
}

/// Why a transaction is invalid.
#[derive(Clone, Debug, PartialEq, Eq)]
pub enum InvalidTransactionV1 {
    EntryPointCannotBeCall,
    EntryPointCannotBeCustom { entry_point: TransactionEntryPoint },
    EntryPointMustBeCustom { entry_point: TransactionEntryPoint },
    EntryPointMustBeCall { entry_point: TransactionEntryPoint },
    NoWasmLaneMatchesTransaction,
    PricingModeNotSupported,
}

/// The wasm lane of a transaction that installs or upgrades nothing.
pub open spec fn non_install_wasm_lane(pricing_mode: PricingMode, lookup: WasmLaneLookup) -> Result<
    u8,
    InvalidTransactionV1,
> {
    match pricing_mode {
        PricingMode::PaymentLimited { .. } => match lookup.by_payment_limited {
            Some(id) => Ok(id),
            None => Err(InvalidTransactionV1::NoWasmLaneMatchesTransaction),
        },
        PricingMode::Fixed { .. } => match lookup.by_size {
            Some(id) => Ok(id),
            None => Err(InvalidTransactionV1::NoWasmLaneMatchesTransaction),
        },
        PricingMode::Prepaid => Err(InvalidTransactionV1::PricingModeNotSupported),
    }
}

/// The lane of a transaction.
pub open spec fn transaction_lane(
    entry_point: TransactionEntryPoint,
    target: TransactionTarget,
    pricing_mode: PricingMode,
    lookup: WasmLaneLookup,
) -> Result<u8, InvalidTransactionV1> {
    match target {
        TransactionTarget::Native => if is_mint_entry_point(entry_point) {
            Ok(MINT_LANE_ID)
        } else if is_auction_entry_point(entry_point) {
            Ok(AUCTION_LANE_ID)
        } else if entry_point is Call {
            Err(InvalidTransactionV1::EntryPointCannotBeCall)
        } else {
            Err(InvalidTransactionV1::EntryPointCannotBeCustom { entry_point })
        },
        TransactionTarget::Stored => if entry_point is Custom {
            non_install_wasm_lane(pricing_mode, lookup)
        } else {
            Err(InvalidTransactionV1::EntryPointMustBeCustom { entry_point })
        },
        TransactionTarget::Session { is_install_upgrade, runtime } => {
            let accepted = match runtime {
                TransactionRuntime::VmCasperV1 => entry_point is Call,
                TransactionRuntime::VmCasperV2 => entry_point is Call || entry_point is Custom,
            };
            if !accepted {
                Err(InvalidTransactionV1::EntryPointMustBeCall { entry_point })
            } else if is_install_upgrade {
                Ok(INSTALL_UPGRADE_LANE_ID)
            } else {
                non_install_wasm_lane(pricing_mode, lookup)
            }
        },
    }
}

/// The wasm lane of a transaction that installs or upgrades nothing, by its
/// pricing mode.
pub fn get_lane_for_non_install_wasm(lookup: &WasmLaneLookup, pricing_mode: &PricingMode) -> (r: Result<
    u8,
    InvalidTransactionV1,
>)
    ensures
        r == non_install_wasm_lane(*pricing_mode, *lookup),
{
    match pricing_mode {
        PricingMode::PaymentLimited { .. } => match lookup.by_payment_limited {
            Some(id) => Ok(id),
            None => Err(InvalidTransactionV1::NoWasmLaneMatchesTransaction),
        },
        PricingMode::Fixed { .. } => match lookup.by_size {
            Some(id) => Ok(id),
            None => Err(InvalidTransactionV1::NoWasmLaneMatchesTransaction),
        },
        PricingMode::Prepaid => Err(InvalidTransactionV1::PricingModeNotSupported),
    }
}

/// Calculates the lane based on properties of the transaction.
pub fn calculate_transaction_lane(
    entry_point: &TransactionEntryPoint,
    target: &TransactionTarget,
    pricing_mode: &PricingMode,
    lookup: &WasmLaneLookup,
) -> (r: Result<u8, InvalidTransactionV1>)
    ensures
        r == transaction_lane(*entry_point, *target, *pricing_mode, *lookup),
        *target == TransactionTarget::Native ==> (r == Ok::<u8, InvalidTransactionV1>(MINT_LANE_ID) <==> (
        *entry_point == TransactionEntryPoint::Transfer || *entry_point == TransactionEntryPoint::Burn)),
        *target == TransactionTarget::Native ==> (r == Ok::<u8, InvalidTransactionV1>(AUCTION_LANE_ID) <==> (
        *entry_point == TransactionEntryPoint::AddBid || *entry_point == TransactionEntryPoint::WithdrawBid
            || *entry_point == TransactionEntryPoint::Delegate || *entry_point == TransactionEntryPoint::Undelegate
            || *entry_point == TransactionEntryPoint::Redelegate || *entry_point == TransactionEntryPoint::ActivateBid
            || *entry_point == TransactionEntryPoint::ChangeBidPublicKey || *entry_point
            == TransactionEntryPoint::AddReservations || *entry_point == TransactionEntryPoint::CancelReservations)),
{
    proof {
        law_native_lanes(*entry_point, *pricing_mode, *lookup);
    }
    match target {
        TransactionTarget::Native => match entry_point {
            TransactionEntryPoint::Transfer | TransactionEntryPoint::Burn => Ok(MINT_LANE_ID),
            TransactionEntryPoint::AddBid
            | TransactionEntryPoint::WithdrawBid
            | TransactionEntryPoint::Delegate
            | TransactionEntryPoint::Undelegate
            | TransactionEntryPoint::Redelegate
            | TransactionEntryPoint::ActivateBid
            | TransactionEntryPoint::ChangeBidPublicKey
            | TransactionEntryPoint::AddReservations
            | TransactionEntryPoint::CancelReservations => Ok(AUCTION_LANE_ID),
            TransactionEntryPoint::Call => Err(InvalidTransactionV1::EntryPointCannotBeCall),
            TransactionEntryPoint::Custom(_) => Err(
                InvalidTransactionV1::EntryPointCannotBeCustom { entry_point: entry_point.copy() },
            ),
        },
        TransactionTarget::Stored => match entry_point {
            TransactionEntryPoint::Custom(_) => get_lane_for_non_install_wasm(lookup, pricing_mode),
            _ => Err(InvalidTransactionV1::EntryPointMustBeCustom { entry_point: entry_point.copy() }),
        },
        TransactionTarget::Session { is_install_upgrade, runtime: TransactionRuntime::VmCasperV1 } => match entry_point {
            TransactionEntryPoint::Call => {
                if *is_install_upgrade {
                    Ok(INSTALL_UPGRADE_LANE_ID)
                } else {
                    get_lane_for_non_install_wasm(lookup, pricing_mode)
                }
            },
            _ => Err(InvalidTransactionV1::EntryPointMustBeCall { entry_point: entry_point.copy() }),
        },
        TransactionTarget::Session { is_install_upgrade, runtime: TransactionRuntime::VmCasperV2 } => match entry_point {
            TransactionEntryPoint::Call | TransactionEntryPoint::Custom(_) => {
                if *is_install_upgrade {
                    Ok(INSTALL_UPGRADE_LANE_ID)
                } else {
                    get_lane_for_non_install_wasm(lookup, pricing_mode)
                }
            },
            _ => Err(InvalidTransactionV1::EntryPointMustBeCall { entry_point: entry_point.copy() }),
        },
    }
}

/// The limits of a transaction lane.
#[derive(Copy, Clone, Debug, PartialEq, Eq, Structural)]
pub struct TransactionLaneDefinition {
    pub id: u8,
    pub max_transaction_length: u64,
    pub max_transaction_args_length: u64,
    pub max_transaction_gas_limit: u64,
    pub max_transaction_count: u64,
}

/// Whether lane `i` has the greatest maximum transaction length, and no lane
/// after it has as great a one (the last of the greatest).
pub open spec fn is_last_biggest(lanes: Seq<TransactionLaneDefinition>, i: int) -> bool {
    &&& 0 <= i < lanes.len()
    &&& forall|k: int| 0 <= k < lanes.len() ==> (#[trigger] lanes[k]).max_transaction_length <= lanes[i].max_transaction_length
    &&& forall|k: int| i < k < lanes.len() ==> (#[trigger] lanes[k]).max_transaction_length < lanes[i].max_transaction_length
}

/// The id of the wasm lane that admits the longest transactions; of several
/// such lanes, the last.
pub fn calculate_lane_id_of_biggest_wasm(wasm_lanes: &[TransactionLaneDefinition]) -> (r: Option<u8>)
    ensures
        wasm_lanes@.len() == 0 <==> r is None,
        r matches Some(id) ==> exists|i: int| #[trigger] is_last_biggest(wasm_lanes@, i) && wasm_lanes@[i].id == id,
{
    if wasm_lanes.len() == 0 {
        return None;
    }
    let mut best: usize = 0;
    let mut i: usize = 1;
    while i < wasm_lanes.len()
        invariant
            1 <= i <= wasm_lanes@.len(),
            best < i,
            forall|k: int| 0 <= k < i ==> (#[trigger] wasm_lanes@[k]).max_transaction_length <= wasm_lanes@[best as int].max_transaction_length,
            forall|k: int| best < k < i ==> (#[trigger] wasm_lanes@[k]).max_transaction_length < wasm_lanes@[best as int].max_transaction_length,
        decreases wasm_lanes@.len() - i,
    {
        if wasm_lanes[i].max_transaction_length >= wasm_lanes[best].max_transaction_length {
            best = i;
        }
        i += 1;
    }
    assert(is_last_biggest(wasm_lanes@, best as int));
    Some(wasm_lanes[best].id)
}

/// A native transaction runs in the mint lane exactly when it transfers or
/// burns tokens, and in the auction lane exactly when it is one of the
/// auction's entry points (adding, withdrawing or activating a bid,
/// changing a bid's key, delegating, undelegating, redelegating, adding or
/// cancelling reservations); whatever its pricing and the wasm lanes, the
/// entry point alone decides, and every other entry point is refused.
pub proof fn law_native_lanes(entry_point: TransactionEntryPoint, pricing_mode: PricingMode, lookup: WasmLaneLookup)
    ensures
        ({
            let r = transaction_lane(entry_point, TransactionTarget::Native, pricing_mode, lookup);
            &&& (r == Ok::<u8, InvalidTransactionV1>(MINT_LANE_ID)) <==> (entry_point == TransactionEntryPoint::Transfer
                || entry_point == TransactionEntryPoint::Burn)
            &&& (r == Ok::<u8, InvalidTransactionV1>(AUCTION_LANE_ID)) <==> (entry_point
                == TransactionEntryPoint::AddBid || entry_point == TransactionEntryPoint::WithdrawBid || entry_point
                == TransactionEntryPoint::Delegate || entry_point == TransactionEntryPoint::Undelegate || entry_point
                == TransactionEntryPoint::Redelegate || entry_point == TransactionEntryPoint::ActivateBid
                || entry_point == TransactionEntryPoint::ChangeBidPublicKey || entry_point
                == TransactionEntryPoint::AddReservations || entry_point == TransactionEntryPoint::CancelReservations)
            &&& r is Ok ==> r == Ok::<u8, InvalidTransactionV1>(MINT_LANE_ID) || r == Ok::<u8, InvalidTransactionV1>(
                AUCTION_LANE_ID)
            &&& forall|p: PricingMode, l: WasmLaneLookup| #[trigger] transaction_lane(
                entry_point,
                TransactionTarget::Native,
                p,
                l,
            ) == r
        }),
{
}

} // verus!
