use casper_node_logic::lanes::{
    calculate_lane_id_of_biggest_wasm, calculate_transaction_lane, get_lane_for_non_install_wasm,
    InvalidTransactionV1, PricingMode, TransactionEntryPoint, TransactionLaneDefinition, TransactionRuntime,
    TransactionTarget, WasmLaneLookup, AUCTION_LANE_ID, INSTALL_UPGRADE_LANE_ID, MINT_LANE_ID,
};

fn lane(id: u8, max_transaction_length: u64) -> TransactionLaneDefinition {
    TransactionLaneDefinition {
        id,
        max_transaction_length,
        max_transaction_args_length: 2,
        max_transaction_gas_limit: 3,
        max_transaction_count: 4,
    }
}

#[test]
fn calculate_lane_id_of_biggest_wasm_should_return_none_on_empty() {
    let wasms = vec![];
    assert!(calculate_lane_id_of_biggest_wasm(&wasms).is_none());
}

#[test]
fn calculate_lane_id_of_biggest_wasm_should_return_biggest() {
    let wasms = vec![
        TransactionLaneDefinition {
            id: 0,
            max_transaction_length: 1,
            max_transaction_args_length: 2,
            max_transaction_gas_limit: 3,
            max_transaction_count: 4,
        },
        TransactionLaneDefinition {
            id: 1,
            max_transaction_length: 10,
            max_transaction_args_length: 2,
            max_transaction_gas_limit: 3,
            max_transaction_count: 4,
        },
    ];
    assert_eq!(calculate_lane_id_of_biggest_wasm(&wasms), Some(1));
    let wasms = vec![
        TransactionLaneDefinition {
            id: 0,
            max_transaction_length: 1,
            max_transaction_args_length: 2,
            max_transaction_gas_limit: 3,
            max_transaction_count: 4,
        },
        TransactionLaneDefinition {
            id: 1,
            max_transaction_length: 10,
            max_transaction_args_length: 2,
            max_transaction_gas_limit: 3,
            max_transaction_count: 4,
        },
        TransactionLaneDefinition {
            id: 2,
            max_transaction_length: 7,
            max_transaction_args_length: 2,
            max_transaction_gas_limit: 3,
            max_transaction_count: 4,
        },
    ];
    assert_eq!(calculate_lane_id_of_biggest_wasm(&wasms), Some(1));

    let wasms = vec![
        TransactionLaneDefinition {
            id: 0,
            max_transaction_length: 1,
            max_transaction_args_length: 2,
            max_transaction_gas_limit: 3,
            max_transaction_count: 4,
        },
        TransactionLaneDefinition {
            id: 1,
            max_transaction_length: 10,
            max_transaction_args_length: 2,
            max_transaction_gas_limit: 3,
            max_transaction_count: 4,
        },
        TransactionLaneDefinition {
            id: 2,
            max_transaction_length: 70,
            max_transaction_args_length: 2,
            max_transaction_gas_limit: 3,
            max_transaction_count: 4,
        },
    ];
    assert_eq!(calculate_lane_id_of_biggest_wasm(&wasms), Some(2));
}

#[test]
fn biggest_wasm_ties_go_to_the_last_lane() {
    let wasms = vec![lane(5, 10), lane(6, 10), lane(7, 3)];
    assert_eq!(calculate_lane_id_of_biggest_wasm(&wasms), Some(6));
}

const LOOKUP: WasmLaneLookup = WasmLaneLookup { by_payment_limited: Some(4), by_size: Some(5) };
const NONE_FITS: WasmLaneLookup = WasmLaneLookup { by_payment_limited: None, by_size: None };
const PAYMENT: PricingMode = PricingMode::PaymentLimited { payment_amount: 1_000 };
const FIXED: PricingMode = PricingMode::Fixed { additional_computation_factor: 0 };

fn session(is_install_upgrade: bool, runtime: TransactionRuntime) -> TransactionTarget {
    TransactionTarget::Session { is_install_upgrade, runtime }
}

#[test]
fn native_transactions_go_to_mint_or_auction() {
    let native = TransactionTarget::Native;
    assert_eq!(
        calculate_transaction_lane(&TransactionEntryPoint::Transfer, &native, &PAYMENT, &LOOKUP),
        Ok(MINT_LANE_ID)
    );
    assert_eq!(
        calculate_transaction_lane(&TransactionEntryPoint::Burn, &native, &PAYMENT, &LOOKUP),
        Ok(MINT_LANE_ID)
    );
    assert_eq!(
        calculate_transaction_lane(&TransactionEntryPoint::Delegate, &native, &PAYMENT, &LOOKUP),
        Ok(AUCTION_LANE_ID)
    );
    assert_eq!(
        calculate_transaction_lane(&TransactionEntryPoint::CancelReservations, &native, &FIXED, &LOOKUP),
        Ok(AUCTION_LANE_ID)
    );
    assert_eq!(
        calculate_transaction_lane(&TransactionEntryPoint::Call, &native, &PAYMENT, &LOOKUP),
        Err(InvalidTransactionV1::EntryPointCannotBeCall)
    );
    let custom = TransactionEntryPoint::Custom("go".to_string());
    assert_eq!(
        calculate_transaction_lane(&custom, &native, &PAYMENT, &LOOKUP),
        Err(InvalidTransactionV1::EntryPointCannotBeCustom { entry_point: custom.clone() })
    );
}

#[test]
fn stored_transactions_need_a_custom_entry_point() {
    let stored = TransactionTarget::Stored;
    let custom = TransactionEntryPoint::Custom("go".to_string());
    assert_eq!(calculate_transaction_lane(&custom, &stored, &PAYMENT, &LOOKUP), Ok(4));
    assert_eq!(calculate_transaction_lane(&custom, &stored, &FIXED, &LOOKUP), Ok(5));
    assert_eq!(
        calculate_transaction_lane(&custom, &stored, &FIXED, &NONE_FITS),
        Err(InvalidTransactionV1::NoWasmLaneMatchesTransaction)
    );
    assert_eq!(
        calculate_transaction_lane(&custom, &stored, &PricingMode::Prepaid, &LOOKUP),
        Err(InvalidTransactionV1::PricingModeNotSupported)
    );
    assert_eq!(
        calculate_transaction_lane(&TransactionEntryPoint::Call, &stored, &PAYMENT, &LOOKUP),
        Err(InvalidTransactionV1::EntryPointMustBeCustom { entry_point: TransactionEntryPoint::Call })
    );
}

#[test]
fn sessions_by_runtime() {
    let v1 = session(false, TransactionRuntime::VmCasperV1);
    let v1_install = session(true, TransactionRuntime::VmCasperV1);
    let v2 = session(false, TransactionRuntime::VmCasperV2);
    let v2_install = session(true, TransactionRuntime::VmCasperV2);
    let custom = TransactionEntryPoint::Custom("init".to_string());
    assert_eq!(calculate_transaction_lane(&TransactionEntryPoint::Call, &v1, &PAYMENT, &LOOKUP), Ok(4));
    assert_eq!(
        calculate_transaction_lane(&TransactionEntryPoint::Call, &v1_install, &PAYMENT, &LOOKUP),
        Ok(INSTALL_UPGRADE_LANE_ID)
    );
    assert_eq!(
        calculate_transaction_lane(&custom, &v1, &PAYMENT, &LOOKUP),
        Err(InvalidTransactionV1::EntryPointMustBeCall { entry_point: custom.clone() })
    );
    assert_eq!(calculate_transaction_lane(&custom, &v2, &FIXED, &LOOKUP), Ok(5));
    assert_eq!(calculate_transaction_lane(&custom, &v2_install, &FIXED, &LOOKUP), Ok(INSTALL_UPGRADE_LANE_ID));
    assert_eq!(
        calculate_transaction_lane(&TransactionEntryPoint::Transfer, &v2, &FIXED, &LOOKUP),
        Err(InvalidTransactionV1::EntryPointMustBeCall { entry_point: TransactionEntryPoint::Transfer })
    );
}

#[test]
fn non_install_wasm_lane_by_pricing_mode() {
    assert_eq!(get_lane_for_non_install_wasm(&LOOKUP, &PAYMENT), Ok(4));
    assert_eq!(get_lane_for_non_install_wasm(&LOOKUP, &FIXED), Ok(5));
    assert_eq!(
        get_lane_for_non_install_wasm(&NONE_FITS, &PAYMENT),
        Err(InvalidTransactionV1::NoWasmLaneMatchesTransaction)
    );
    assert_eq!(
        get_lane_for_non_install_wasm(&LOOKUP, &PricingMode::Prepaid),
        Err(InvalidTransactionV1::PricingModeNotSupported)
    );
}
