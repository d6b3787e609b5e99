use casper_node_logic::gatekeeper::{
    is_floating_point, FunctionGatekeeper, GatekeeperConfig, GatekeeperError, Proposal,
    FLOATING_POINTS_NOT_ALLOWED, MIDDLEWARE_NAME,
};

// Operators by the proposal they belong to and their name in the Wasm parser.
const I32_ADD: (Proposal, &str) = (Proposal::Mvp, "I32Add");
const F32_ADD: (Proposal, &str) = (Proposal::Mvp, "F32Add");

fn compile(config: GatekeeperConfig, body: &[(Proposal, &str)]) -> Result<(), GatekeeperError> {
    let gatekeeper = FunctionGatekeeper::new(config);
    for (proposal, operator) in body {
        gatekeeper.feed(*proposal, operator)?;
    }
    Ok(())
}

#[test]
fn mvp_opcodes_allowed() {
    let mut config = GatekeeperConfig::default();
    config.mvp = true;
    assert!(compile(config, &[I32_ADD]).is_ok());
}

#[test]
fn mvp_opcodes_allowed_without_floating_points() {
    let mut config = GatekeeperConfig::default();
    config.mvp = true;
    config.allow_floating_points = false;
    let error = match compile(config, &[F32_ADD]) {
        Err(error) => error,
        Ok(()) => panic!("Expected a middleware error"),
    };
    assert_eq!(error.message(), FLOATING_POINTS_NOT_ALLOWED);
}

#[test]
fn mvp_opcodes_allowed_with_floating_points() {
    let mut config = GatekeeperConfig::default();
    config.mvp = true;
    config.allow_floating_points = true;
    assert!(compile(config, &[F32_ADD]).is_ok());
}

#[test]
fn mvp_opcodes_not_allowed() {
    let mut config = GatekeeperConfig::default();
    config.mvp = false;
    let error = compile(config, &[I32_ADD]).unwrap_err();
    assert_eq!(
        format!("Error in middleware {}: {}", MIDDLEWARE_NAME, error.message()),
        "Error in middleware Gatekeeper: Wasm `mvp` extension is not allowed"
    );
}

#[test]
fn default_config_allows_only_mvp_and_sign_extension() {
    let config = GatekeeperConfig::default();
    assert!(config.is_allowed(Proposal::Mvp));
    assert!(config.is_allowed(Proposal::SignExtension));
    assert!(!config.is_allowed(Proposal::Simd));
    assert!(!config.is_allowed(Proposal::BulkMemory));
    assert!(!config.allow_floating_points);
}

#[test]
fn proposal_checked_before_floating_points() {
    let config = GatekeeperConfig::default();
    let error = compile(config, &[(Proposal::Simd, "F32x4Add")]).unwrap_err();
    assert_eq!(error, GatekeeperError::ExtensionNotAllowed(Proposal::Simd));
    assert_eq!(error.message(), "Wasm `simd` extension is not allowed");
}

#[test]
fn first_rejected_operator_stops_compilation() {
    let config = GatekeeperConfig::default();
    let result = compile(config, &[I32_ADD, F32_ADD, (Proposal::Gc, "RefI31")]);
    assert_eq!(result, Err(GatekeeperError::FloatingPointsNotAllowed));
}

#[test]
fn floating_point_operators_are_classified() {
    for name in [
        "F32Load", "F64Store", "F32Const", "F64Sqrt", "F32Copysign", "F64Ge", "I32TruncF32S",
        "I64ReinterpretF64", "F64PromoteF32", "I32TruncSatF64U", "F32x4ExtractLane", "F64x2PMax",
        "F64x2PromoteLowF32x4", "I32x4RelaxedTruncF64x2UZero", "F64x2RelaxedMax",
    ] {
        assert!(is_floating_point(name), "{name}");
    }
    for name in [
        "I32Add", "I64Load", "I32Const", "I32WrapI64", "I64ExtendI32S", "V128Load", "I32x4Add",
        "I16x8RelaxedQ15mulrS", "MemoryCopy", "", "f32add", "F32AddX",
    ] {
        assert!(!is_floating_point(name), "{name}");
    }
}

#[test]
fn floating_point_gating_follows_the_classification() {
    let mut config = GatekeeperConfig::default();
    config.simd = true;
    let gatekeeper = FunctionGatekeeper::new(config);
    assert_eq!(
        gatekeeper.feed(Proposal::Simd, "F32x4Mul"),
        Err(GatekeeperError::FloatingPointsNotAllowed)
    );
    assert_eq!(gatekeeper.feed(Proposal::Simd, "I8x16Add"), Ok(()));
    assert_eq!(gatekeeper.ensure_floating_point_allowed("I64TruncF64S"), Err(GatekeeperError::FloatingPointsNotAllowed));
    config.allow_floating_points = true;
    assert_eq!(FunctionGatekeeper::new(config).feed(Proposal::Simd, "F32x4Mul"), Ok(()));
}
