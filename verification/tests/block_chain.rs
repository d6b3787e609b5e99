use casper_node_logic::block_chain::{BlockChain, BlockChainEntry, BlockHeader, EraId, Error};
use casper_node_logic::hash32::{BlockHash, Hash32};

fn hash_of(n: u64) -> BlockHash {
    let mut bytes = [0u8; 32];
    bytes[..8].copy_from_slice(&n.to_le_bytes());
    bytes[31] = 0xAB;
    Hash32::new(bytes)
}

/// Hashes that differ from each other, standing for random ones.
struct HashSource {
    next: u64,
}

impl HashSource {
    fn new() -> Self {
        HashSource { next: 1 }
    }
    fn random(&mut self) -> BlockHash {
        self.next += 1;
        hash_of(self.next * 7919)
    }
}

#[test]
fn should_construct_empty() {
    let block_chain = BlockChain::new();
    assert!(block_chain.is_chain_empty(), "should ctor with empty chain");
    assert!(block_chain.is_index_empty(), "should ctor with empty index");
}

#[test]
fn should_be_vacant() {
    let block_chain = BlockChain::new();
    assert_eq!(block_chain.by_height(0), BlockChainEntry::vacant(0), "should be vacant");
}

#[test]
fn should_be_proposed() {
    let mut block_chain = BlockChain::new();
    assert!(block_chain.register_proposed(0).is_ok(), "should register proposed");
    assert_eq!(block_chain.by_height(0), BlockChainEntry::new_proposed(0), "should be proposed");
}

#[test]
fn should_be_finalized() {
    let mut block_chain = BlockChain::new();
    block_chain.register_finalized(0);
    assert_eq!(block_chain.by_height(0), BlockChainEntry::new_finalized(0), "should be finalized");
}

#[test]
fn should_be_incomplete() {
    let mut block_chain = BlockChain::new();
    let block_hash = BlockHash::default();
    block_chain.register_incomplete(0, &block_hash);
    assert_eq!(
        block_chain.by_height(0),
        BlockChainEntry::new_incomplete(0, &block_hash),
        "should be incomplete"
    );
}

fn some_header(source: &mut HashSource, height: u64) -> BlockHeader {
    BlockHeader {
        height,
        block_hash: source.random(),
        era_id: EraId::new(height / 10),
        is_switch_block: height % 2 == 0,
    }
}

#[test]
fn should_be_complete() {
    let mut block_chain = BlockChain::new();
    let mut rng = HashSource::new();
    let block_header = some_header(&mut rng, 17);
    block_chain.register_complete(&block_header);
    assert_eq!(
        block_chain.by_height(block_header.height()),
        BlockChainEntry::new_complete(&block_header),
        "should be complete"
    );
}

#[test]
fn should_find_by_hash() {
    let mut block_chain = BlockChain::new();
    let mut rng = HashSource::new();
    let block_header1 = some_header(&mut rng, 3);
    block_chain.register_complete(&block_header1);
    assert_eq!(
        block_chain.by_hash(&block_header1.block_hash()),
        Some(BlockChainEntry::new_complete(&block_header1)),
        "should find complete block by hash"
    );
    let block_header2 = some_header(&mut rng, 8);
    block_chain.register_incomplete(block_header2.height(), &block_header2.block_hash());
    assert_eq!(
        block_chain.by_hash(&block_header2.block_hash()),
        Some(BlockChainEntry::new_incomplete(block_header2.height(), &block_header2.block_hash())),
        "should find incomplete block by hash"
    );
}

#[test]
fn should_not_find_by_hash() {
    let mut block_chain = BlockChain::new();
    let block_hash = BlockHash::default();
    assert!(block_chain.register_proposed(0).is_ok(), "should be ok");
    assert_eq!(block_chain.by_hash(&block_hash), None, "proposed should not be indexed by hash");
    block_chain.register_finalized(1);
    assert_eq!(block_chain.by_hash(&block_hash), None, "finalized should not be indexed by hash");
}

#[test]
fn should_remove() {
    let mut block_chain = BlockChain::new();
    let block_height = 0;
    assert!(block_chain.remove(block_height).is_none(), "nothing to remove");
    assert!(block_chain.register_proposed(block_height).is_ok(), "should be ok");
    assert_eq!(false, block_chain.is_chain_empty(), "chain should not be empty");
    let removed = block_chain.remove(block_height).expect("should exist");
    assert_eq!(removed.block_height(), block_height, "removed wrong item");
    assert!(block_chain.is_chain_empty(), "chain should be empty");
}

#[test]
fn should_remove_index() {
    let mut rng = HashSource::new();
    let mut block_chain = BlockChain::new();
    let block_height = 0;
    block_chain.register_complete_from_parts(block_height, rng.random(), EraId::new(0), false);
    assert_eq!(false, block_chain.is_chain_empty(), "chain should not be empty");
    assert_eq!(false, block_chain.is_index_empty(), "index should not be empty");
    let removed = block_chain.remove(block_height).expect("should exist");
    assert_eq!(removed.block_height(), block_height, "removed wrong item");
    assert!(block_chain.is_chain_empty(), "chain should be empty");
    assert!(block_chain.is_index_empty(), "index should be empty");
}

fn irregular_sequence(lbound: u64, ubound: u64, start_break: u64, end_break: u64) -> BlockChain {
    let mut block_chain = BlockChain::new();
    for height in lbound..=ubound {
        if height >= start_break && height <= end_break {
            block_chain.register_finalized(height);
            continue;
        }
        assert!(block_chain.register_proposed(height).is_ok(), "should be ok {}", height);
    }
    block_chain
}

#[test]
fn should_find_low_sequence() {
    let lbound = 0;
    let ubound = 14;
    let start_break = 5;
    let block_chain = irregular_sequence(lbound, ubound, start_break, ubound - start_break);
    let low = block_chain.lowest_sequence(BlockChainEntry::is_proposed);
    assert_eq!(low.is_empty(), false, "sequence should not be empty");
    assert_eq!(
        low.iter().min_by(|x, y| x.block_height().cmp(&y.block_height())).expect("should have entry").block_height(),
        lbound,
        "expected first entry by predicate"
    );
    assert_eq!(
        low.iter().max_by(|x, y| x.block_height().cmp(&y.block_height())).expect("should have entry").block_height(),
        start_break - 1,
        "expected last entry by predicate"
    );
}

#[test]
fn should_find_high_sequence() {
    let lbound = 0;
    let ubound = 14;
    let start_break = 5;
    let block_chain = irregular_sequence(lbound, ubound, start_break, ubound - start_break);
    let hi = block_chain.highest_sequence(BlockChainEntry::is_proposed);
    assert_eq!(hi.is_empty(), false, "sequence should not be empty");
    assert_eq!(
        hi.iter().min_by(|x, y| x.block_height().cmp(&y.block_height())).expect("should have entry").block_height(),
        ubound - start_break + 1,
        "expected first entry by predicate"
    );
    assert_eq!(
        hi.iter().max_by(|x, y| x.block_height().cmp(&y.block_height())).expect("should have entry").block_height(),
        ubound,
        "expected last entry by predicate"
    );
}

#[test]
fn should_find_switch_blocks() {
    let mut rng = HashSource::new();
    let mut block_chain = BlockChain::new();
    let mut era_id = EraId::new(0);
    let mut change_era = false;
    for height in 0..=10 {
        if change_era {
            era_id = era_id.successor();
        }
        let is_switch_block = height == 0 || height % 5 == 0;
        block_chain.register_complete_from_parts(height, rng.random(), era_id, is_switch_block);
        change_era = is_switch_block;
    }
    assert_eq!(
        block_chain.lowest(BlockChainEntry::is_complete_switch_block).expect("should have switch blocks").block_height(),
        0,
        "block at height 0 should be lowest switch"
    );
    assert_eq!(
        block_chain.highest(BlockChainEntry::is_complete_switch_block).expect("should have switch blocks").block_height(),
        10,
        "block at height 10 should be highest switch"
    );
    assert_eq!(
        block_chain.all_by(BlockChainEntry::is_complete_switch_block).len(),
        3,
        "unexpected number of switch blocks"
    );
    assert_eq!(block_chain.lowest_switch_block().map(|e| e.block_height()), Some(0));
    assert_eq!(block_chain.highest_switch_block().map(|e| e.block_height()), Some(10));
}

#[test]
fn should_find_immediate_switch_blocks() {
    let mut rng = HashSource::new();
    let mut block_chain = BlockChain::new();
    let mut era_id = EraId::new(0);
    let mut change_era = false;
    let div = 5;
    for height in 0..=10u64 {
        if change_era {
            era_id = era_id.successor();
        }
        let switch = height % div == 0;
        #[allow(clippy::precedence)]
        let immediate = height == 0 || height - 1 % div == 0;
        block_chain.register_complete_from_parts(height, rng.random(), era_id, switch || immediate);
        change_era = switch || immediate;

        let expected = Some(immediate);
        let actual = block_chain.is_immediate_switch_block(height);
        assert_eq!(expected, actual, "at height {} expected: {:?} actual: {:?}", height, expected, actual);
    }
}

#[test]
fn should_find_by_parent() {
    let mut rng = HashSource::new();
    let mut block_chain = BlockChain::new();
    let era_id = EraId::new(0);
    for height in 0..5 {
        block_chain.register_complete_from_parts(height, rng.random(), era_id, false);
    }
    for height in 0..4 {
        let parent = block_chain.by_height(height);
        assert!(parent.is_complete(), "should be complete");
        let child = block_chain
            .by_parent(&parent.block_hash().expect("should have block_hash"))
            .expect("should have child");
        assert_eq!(child.block_height().saturating_sub(1), parent.block_height(), "invalid child detected")
    }
}

#[test]
#[allow(clippy::reversed_empty_ranges)]
fn should_find_by_child() {
    let mut rng = HashSource::new();
    let mut block_chain = BlockChain::new();
    let era_id = EraId::new(0);
    for height in 0..5 {
        block_chain.register_complete_from_parts(height, rng.random(), era_id, false);
    }
    for height in 5..1 {
        let child = block_chain.by_height(height);
        assert!(child.is_complete(), "should be complete");
        let parent = block_chain
            .by_child(&child.block_hash().expect("should have block_hash"))
            .expect("should have child");
        assert_eq!(parent.block_height() + 1, child.block_height(), "invalid child detected")
    }
}

#[test]
fn should_have_childless_tail() {
    let mut rng = HashSource::new();
    let mut block_chain = BlockChain::new();
    let era_id = EraId::new(0);
    for height in 0..5 {
        block_chain.register_complete_from_parts(height, rng.random(), era_id, false);
    }
    let highest = block_chain.highest(BlockChainEntry::all_non_vacant).expect("should have some");
    let child = block_chain
        .by_parent(&highest.block_hash().expect("should have block_hash"))
        .expect("should return vacant entry");
    assert!(child.is_vacant(), "tail should not have child");
}

#[test]
fn should_have_parentless_head() {
    let mut rng = HashSource::new();
    let mut block_chain = BlockChain::new();
    let era_id = EraId::new(0);
    for height in 0..5 {
        block_chain.register_complete_from_parts(height, rng.random(), era_id, false);
    }
    let lowest = block_chain.lowest(BlockChainEntry::all_non_vacant).expect("should have some");
    let parent = block_chain.by_child(&lowest.block_hash().expect("should have block_hash"));
    assert!(parent.is_none(), "head should not have parent");
}

#[test]
fn should_not_allow_proposed_with_higher_status_descendants() {
    let mut rng = HashSource::new();
    let mut block_chain = BlockChain::new();
    let era_id = EraId::new(0);
    let block_to_skip = 3;
    for height in 0..5 {
        if height == block_to_skip {
            continue;
        }
        block_chain.register_complete_from_parts(height, rng.random(), era_id, false);
    }
    let result = block_chain.register_proposed(block_to_skip);
    assert_eq!(Err(Error::AttemptToProposeAboveTail), result, "should detect non-tail proposal")
}

#[test]
fn should_find_all_actual_entries() {
    let mut rng = HashSource::new();
    let mut block_chain = BlockChain::new();
    let mut expected = vec![];
    for height in 5..15 {
        if height >= 8 && height < 10 {
            continue;
        }
        let block_hash = &rng.random();
        block_chain.register_incomplete(height, block_hash);
        expected.push(BlockChainEntry::new_incomplete(height, block_hash));
    }
    let all = block_chain.all_by(BlockChainEntry::all);
    assert_eq!(expected.iter().collect::<Vec<_>>(), all, "should have actual entries only");
}

#[test]
fn should_find_all_virtual_entries() {
    let mut rng = HashSource::new();
    let mut block_chain = BlockChain::new();
    let mut expected = vec![];
    let lbound = 0;
    let ubound = 14;
    for height in lbound..=ubound {
        if height == 0 || height % 2 == 0 {
            expected.push(BlockChainEntry::Vacant { block_height: height });
            continue;
        }
        let block_hash = &rng.random();
        block_chain.register_incomplete(height, block_hash);
        expected.push(BlockChainEntry::new_incomplete(height, block_hash));
    }
    let all = block_chain.all_by(BlockChainEntry::all);
    let range = block_chain.range(Some(lbound), Some(ubound));
    assert!(all.len() < range.len(), "all should not include vacancies");
    assert_ne!(all, range.iter().collect::<Vec<_>>(), "range should include vacancies");
    assert_eq!(expected, range, "should have entire range");
    let range = block_chain.range(None, Some(ubound));
    assert_eq!(expected, range, "should have entire range default lbound");

    expected.pop(); // get rid of tail vacancy
    let range = block_chain.range(Some(lbound), None);
    assert_eq!(expected, range, "should have entire range default ubound");
    let range = block_chain.range(None, None);
    assert_eq!(expected, range, "should have entire range unbounded");
}

#[test]
fn registering_a_hash_twice_keeps_its_first_height() {
    let mut block_chain = BlockChain::new();
    let h = hash_of(99);
    block_chain.register_incomplete(4, &h);
    block_chain.register_incomplete(6, &h);
    assert_eq!(block_chain.by_hash(&h), Some(BlockChainEntry::new_incomplete(4, &h)));
    assert_eq!(block_chain.by_height(6), BlockChainEntry::new_incomplete(6, &h));
}

#[test]
fn range_with_reversed_bounds_is_empty() {
    let mut block_chain = BlockChain::new();
    block_chain.register_finalized(3);
    assert!(block_chain.range(Some(5), Some(2)).is_empty());
    assert!(BlockChain::new().range(None, None).is_empty());
}

#[test]
fn lowest_sequence_is_empty_without_match() {
    let mut block_chain = BlockChain::new();
    block_chain.register_finalized(3);
    assert!(block_chain.lowest_sequence(BlockChainEntry::is_proposed).is_empty());
    assert!(block_chain.highest_sequence(BlockChainEntry::is_proposed).is_empty());
}

#[test]
fn registering_twice_is_registering_once() {
    let h = hash_of(5);
    let mut once = BlockChain::new();
    once.register_incomplete(2, &h);
    let mut twice = BlockChain::new();
    twice.register_incomplete(2, &h);
    twice.register_incomplete(2, &h);
    for height in 0..4 {
        assert_eq!(once.by_height(height), twice.by_height(height));
    }
    assert_eq!(once.by_hash(&h), twice.by_hash(&h));
}

#[test]
fn removing_a_new_entry_restores_the_chain() {
    let h = hash_of(8);
    let mut chain = BlockChain::new();
    chain.register_finalized(1);
    chain.register_incomplete(3, &h);
    assert_eq!(chain.remove(3), Some(BlockChainEntry::new_incomplete(3, &h)));
    assert_eq!(chain.by_hash(&h), None);
    assert_eq!(chain.by_height(3), BlockChainEntry::vacant(3));
    assert_eq!(chain.by_height(1), BlockChainEntry::new_finalized(1));
}
