use casper_node_logic::footprint::{
    footprint, Approval, TransactionCategory, TransactionFacts, TransactionHash,
};
use casper_node_logic::hash32::Hash32;

fn facts(gas_limit: Option<u64>, category: TransactionCategory) -> TransactionFacts {
    TransactionFacts {
        transaction_hash: TransactionHash::V1(Hash32::new([1; 32])),
        body_hash: Hash32::new([2; 32]),
        gas_limit,
        serialized_length: 321,
        category,
        timestamp: 1000,
        ttl: 60_000,
        approvals: vec![Approval { signer: vec![1], signature: vec![2] }],
    }
}

#[test]
fn footprint_needs_a_gas_limit() {
    assert!(footprint(&facts(None, TransactionCategory::Standard)).is_none());
}

#[test]
fn footprint_carries_the_facts() {
    let f = footprint(&facts(Some(2_500), TransactionCategory::Mint)).unwrap();
    assert_eq!(f.gas_limit, 2_500);
    assert_eq!(f.size_estimate, 321);
    assert_eq!(f.transaction_hash, TransactionHash::V1(Hash32::new([1; 32])));
    assert_eq!(f.body_hash, Hash32::new([2; 32]));
    assert_eq!(f.timestamp, 1000);
    assert_eq!(f.ttl, 60_000);
    assert_eq!(f.approvals_count(), 1);
    assert!(f.is_mint());
    assert!(!f.is_auction() && !f.is_standard() && !f.is_install_upgrade());
    let f = f.with_approvals(vec![]);
    assert_eq!(f.approvals_count(), 0);
}

#[test]
fn categories() {
    let f = footprint(&facts(Some(1), TransactionCategory::InstallUpgrade)).unwrap();
    assert!(f.is_install_upgrade());
    let f = footprint(&facts(Some(1), TransactionCategory::Auction)).unwrap();
    assert!(f.is_auction());
    let f = footprint(&facts(Some(1), TransactionCategory::Standard)).unwrap();
    assert!(f.is_standard());
}
