use casper_node_logic::burn::{
    source_after_purse_check, ArgValue, BurnArgs,
    BurnError, BurnRuntimeArgsBuilder, NamedKey, RuntimeFootprint, SourceStep,
};
use casper_node_logic::executor::URef;
use casper_node_logic::hash32::Hash32;
use casper_node_logic::transaction_acceptor::U512;

fn uref(b: u8, rights: u8) -> URef {
    URef { addr: Hash32::new([b; 32]), access_rights: rights }
}

fn account() -> RuntimeFootprint {
    RuntimeFootprint {
        main_purse: Some(uref(1, 7)),
        named_keys: vec![NamedKey::Other("Key::Hash".to_string()), NamedKey::URef(uref(2, 7)), NamedKey::URef(uref(3, 1))],
    }
}

fn args(source: Option<ArgValue>, amount: Option<ArgValue>) -> BurnRuntimeArgsBuilder {
    BurnRuntimeArgsBuilder::new(source, amount)
}

fn u512(v: u64) -> U512 {
    U512 { words: [v, 0, 0, 0, 0, 0, 0, 0] }
}

#[test]
fn missing_source_means_main_purse() {
    assert_eq!(args(None, None).resolve_source_uref(&account()), SourceStep::Resolved(uref(1, 7)));
    assert_eq!(
        args(Some(ArgValue::OptionURef(Ok(None))), None).resolve_source_uref(&account()),
        SourceStep::Resolved(uref(1, 7))
    );
    let no_purse = RuntimeFootprint { main_purse: None, named_keys: vec![] };
    assert_eq!(
        args(None, None).resolve_source_uref(&no_purse),
        SourceStep::Failed(BurnError::InvalidOperation)
    );
}

#[test]
fn main_purse_given_explicitly_is_taken() {
    let step = args(Some(ArgValue::URef(Ok(uref(1, 1)))), None).resolve_source_uref(&account());
    assert_eq!(step, SourceStep::Resolved(uref(1, 1)));
}

#[test]
fn named_writeable_purse_is_checked() {
    let step = args(Some(ArgValue::OptionURef(Ok(Some(uref(2, 0))))), None).resolve_source_uref(&account());
    assert_eq!(step, SourceStep::CheckPurse { named: uref(2, 7), source: uref(2, 0) });
    assert_eq!(source_after_purse_check(true, uref(2, 0)), Ok(uref(2, 0)));
    assert_eq!(source_after_purse_check(false, uref(2, 0)), Err(BurnError::InvalidPurse));
}

#[test]
fn read_only_or_unknown_purse_is_refused() {
    let step = args(Some(ArgValue::URef(Ok(uref(3, 7)))), None).resolve_source_uref(&account());
    assert_eq!(step, SourceStep::Failed(BurnError::InvalidAccess { required: 2 }));
    let step = args(Some(ArgValue::URef(Ok(uref(9, 7)))), None).resolve_source_uref(&account());
    assert_eq!(step, SourceStep::Failed(BurnError::ForgedReference(uref(9, 7))));
    let step = args(Some(ArgValue::U64(Ok(3))), None).resolve_source_uref(&account());
    assert_eq!(step, SourceStep::Failed(BurnError::InvalidArgument));
    let step = args(Some(ArgValue::URef(Err("bad bytes".to_string()))), None).resolve_source_uref(&account());
    assert_eq!(step, SourceStep::Failed(BurnError::CLValue("bad bytes".to_string())));
}

#[test]
fn amounts() {
    assert_eq!(args(None, None).resolve_amount(), Err(BurnError::MissingArgument));
    assert_eq!(args(None, Some(ArgValue::U64(Ok(0)))).resolve_amount(), Err(BurnError::AttemptToBurnZero));
    assert_eq!(args(None, Some(ArgValue::U64(Ok(5)))).resolve_amount(), Ok(u512(5)));
    assert_eq!(args(None, Some(ArgValue::U512(Ok(u512(0))))).resolve_amount(), Err(BurnError::AttemptToBurnZero));
    let big = U512 { words: [0, 0, 0, 0, 0, 0, 0, 1] };
    assert_eq!(args(None, Some(ArgValue::U512(Ok(big)))).resolve_amount(), Ok(big));
    assert_eq!(args(None, Some(ArgValue::Other)).resolve_amount(), Err(BurnError::InvalidArgument));
}

#[test]
fn build_takes_source_error_first() {
    let a = args(None, None);
    assert_eq!(a.build(Err(BurnError::InvalidPurse)), Err(BurnError::InvalidPurse));
    assert_eq!(a.build(Ok(uref(1, 7))), Err(BurnError::MissingArgument));
    let a = args(None, Some(ArgValue::U64(Ok(9))));
    let b = a.build(Ok(uref(1, 7))).unwrap();
    assert_eq!(b, BurnArgs::new(uref(1, 7), u512(9)));
    assert_eq!(b.source(), uref(1, 7));
    assert_eq!(b.amount(), u512(9));
}
