//! An index of the block chain by height: which heights are proposed,
//! finalized, incomplete or complete, with a reverse lookup by block hash.

use std::collections::BTreeMap;
use vstd::prelude::*;

use crate::hash32::BlockHash;
use crate::ordered_keys::keys_in_order;

verus! {

broadcast use vstd::std_specs::btree::group_btree_axioms;

/// An era identifier.
#[derive(Clone, Copy, Debug, PartialEq, Eq, Structural)]
pub struct EraId {
    pub value: u64,
}

impl EraId {
    /// The era with the given number.
    pub fn new(value: u64) -> (r: EraId)
        ensures
            r.value == value,
    {
        EraId { value }
    }

    /// The next era; the last era is its own successor.
    pub fn successor(&self) -> (r: EraId)
        ensures
            r.value == if self.value < u64::MAX { self.value + 1 } else { self.value as int },
    {
        EraId { value: self.value.saturating_add(1) }
    }
}

/// The parts of a block header that the chain index records.
#[derive(Clone, Copy, Debug, PartialEq, Eq)]
pub struct BlockHeader {
    pub height: u64,
    pub block_hash: BlockHash,
    pub era_id: EraId,
    pub is_switch_block: bool,
}

impl BlockHeader {
    /// The block's height.
    pub fn height(&self) -> (r: u64)
        ensures
            r == self.height,
    {
        self.height
    }

    /// The block's hash.
    pub fn block_hash(&self) -> (r: BlockHash)
        ensures
            r == self.block_hash,
    {
        self.block_hash
    }

    /// The block's era.
    pub fn era_id(&self) -> (r: EraId)
        ensures
            r == self.era_id,
    {
        self.era_id
    }

    /// Whether the block ends its era.
    pub fn is_switch_block(&self) -> (r: bool)
        ensures
            r == self.is_switch_block,
    {
        self.is_switch_block
    }
}

/// Errors of the block chain index.
#[derive(Debug, PartialEq, Eq, Structural)]
pub enum Error {
    /// A proposal below a height that is already known.
    AttemptToProposeAboveTail,
}

/// What is known of the block at one height.
#[derive(Debug, Copy, Clone, PartialEq, Eq)]
pub enum BlockChainEntry {
    Vacant { block_height: u64 },
    Proposed { block_height: u64 },
    Finalized { block_height: u64 },
    Incomplete { block_hash: BlockHash, block_height: u64 },
    Complete { block_height: u64, block_hash: BlockHash, era_id: EraId, is_switch_block: bool },
}

impl BlockChainEntry {
    /// The height that the entry describes.
    pub open spec fn height_of(self) -> u64 {
        match self {
            BlockChainEntry::Vacant { block_height } => block_height,
            BlockChainEntry::Proposed { block_height } => block_height,
            BlockChainEntry::Finalized { block_height } => block_height,
            BlockChainEntry::Incomplete { block_height, .. } => block_height,
            BlockChainEntry::Complete { block_height, .. } => block_height,
        }
    }

    /// The block hash that the entry holds, if any.
    pub open spec fn hash_of(self) -> Option<BlockHash> {
        match self {
            BlockChainEntry::Incomplete { block_hash, .. } => Some(block_hash),
            BlockChainEntry::Complete { block_hash, .. } => Some(block_hash),
            _ => None,
        }
    }

    /// Whether the entry switches era, where that is known.
    pub open spec fn switch_of(self) -> Option<bool> {
        match self {
            BlockChainEntry::Complete { is_switch_block, .. } => Some(is_switch_block),
            _ => None,
        }
    }

    /// Whether the entry is a complete switch block.
    pub open spec fn complete_switch(self) -> bool {
        match self {
            BlockChainEntry::Complete { is_switch_block, .. } => is_switch_block,
            _ => false,
        }
    }

    /// A vacant entry.
    pub fn vacant(block_height: u64) -> (r: Self)
        ensures
            r == (BlockChainEntry::Vacant { block_height }),
    {
        BlockChainEntry::Vacant { block_height }
    }

    /// A proposed entry.
    pub fn new_proposed(block_height: u64) -> (r: Self)
        ensures
            r == (BlockChainEntry::Proposed { block_height }),
    {
        BlockChainEntry::Proposed { block_height }
    }

    /// A finalized entry.
    pub fn new_finalized(block_height: u64) -> (r: Self)
        ensures
            r == (BlockChainEntry::Finalized { block_height }),
    {
        BlockChainEntry::Finalized { block_height }
    }

    /// An incomplete entry.
    pub fn new_incomplete(block_height: u64, block_hash: &BlockHash) -> (r: Self)
        ensures
            r == (BlockChainEntry::Incomplete { block_height, block_hash: *block_hash }),
    {
        BlockChainEntry::Incomplete { block_height, block_hash: *block_hash }
    }

    /// A complete entry, from the block's header.
    pub fn new_complete(block_header: &BlockHeader) -> (r: Self)
        ensures
            r == (BlockChainEntry::Complete {
                block_height: block_header.height,
                block_hash: block_header.block_hash,
                era_id: block_header.era_id,
                is_switch_block: block_header.is_switch_block,
            }),
    {
        BlockChainEntry::Complete {
            block_height: block_header.height(),
            block_hash: block_header.block_hash(),
            era_id: block_header.era_id(),
            is_switch_block: block_header.is_switch_block(),
        }
    }

    /// The entry's block height.
    pub fn block_height(&self) -> (r: u64)
        ensures
            r == self.height_of(),
    {
        match self {
            BlockChainEntry::Vacant { block_height } => *block_height,
            BlockChainEntry::Proposed { block_height } => *block_height,
            BlockChainEntry::Finalized { block_height } => *block_height,
            BlockChainEntry::Incomplete { block_height, .. } => *block_height,
            BlockChainEntry::Complete { block_height, .. } => *block_height,
        }
    }

    /// The entry's block hash, if present.
    pub fn block_hash(&self) -> (r: Option<BlockHash>)
        ensures
            r == self.hash_of(),
    {
        match self {
            BlockChainEntry::Incomplete { block_hash, .. } => Some(*block_hash),
            BlockChainEntry::Complete { block_hash, .. } => Some(*block_hash),
            _ => None,
        }
    }

    /// The entry's era, if present.
    pub fn era_id(&self) -> (r: Option<EraId>)
        ensures
            r == (match *self {
                BlockChainEntry::Complete { era_id, .. } => Some(era_id),
                _ => None,
            }),
    {
        match self {
            BlockChainEntry::Complete { era_id, .. } => Some(*era_id),
            _ => None,
        }
    }

    /// Whether the entry is a switch block, where that is known.
    pub fn is_switch_block(&self) -> (r: Option<bool>)
        ensures
            r == self.switch_of(),
    {
        match self {
            BlockChainEntry::Complete { is_switch_block, .. } => Some(*is_switch_block),
            _ => None,
        }
    }

    /// Whether the entry is a complete switch block.
    pub fn is_complete_switch_block(&self) -> (r: bool)
        ensures
            r == self.complete_switch(),
    {
        match self {
            BlockChainEntry::Complete { is_switch_block, .. } => *is_switch_block,
            _ => false,
        }
    }

    /// Whether the entry is anything but vacant.
    pub fn all_non_vacant(&self) -> (r: bool)
        ensures
            r == !(*self is Vacant),
    {
        !matches!(self, BlockChainEntry::Vacant { .. })
    }

    /// Selects every entry.
    pub fn all(&self) -> (r: bool)
        ensures
            r,
    {
        true
    }

    /// Whether the entry is vacant.
    pub fn is_vacant(&self) -> (r: bool)
        ensures
            r == (*self is Vacant),
    {
        matches!(self, BlockChainEntry::Vacant { .. })
    }

    /// Whether the entry is proposed.
    pub fn is_proposed(&self) -> (r: bool)
        ensures
            r == (*self is Proposed),
    {
        matches!(self, BlockChainEntry::Proposed { .. })
    }

    /// Whether the entry is finalized.
    pub fn is_finalized(&self) -> (r: bool)
        ensures
            r == (*self is Finalized),
    {
        matches!(self, BlockChainEntry::Finalized { .. })
    }

    /// Whether the entry is incomplete.
    pub fn is_incomplete(&self) -> (r: bool)
        ensures
            r == (*self is Incomplete),
    {
        matches!(self, BlockChainEntry::Incomplete { .. })
    }

    /// Whether the entry is complete.
    pub fn is_complete(&self) -> (r: bool)
        ensures
            r == (*self is Complete),
    {
        matches!(self, BlockChainEntry::Complete { .. })
    }
}

/// A predicate on entries that can be asked about every entry.
pub open spec fn is_filter<F: Fn(&BlockChainEntry) -> bool>(f: F) -> bool {
    forall|e: BlockChainEntry| #[trigger] f.requires((&e,))
}

/// The predicate may answer `true` for the entry.
pub open spec fn selects<F: Fn(&BlockChainEntry) -> bool>(f: F, e: BlockChainEntry) -> bool {
    f.ensures((&e,), true)
}

/// The predicate may answer `false` for the entry.
pub open spec fn rejects<F: Fn(&BlockChainEntry) -> bool>(f: F, e: BlockChainEntry) -> bool {
    f.ensures((&e,), false)
}

/// The entry at a height of a chain map: the recorded one, or a vacancy.
pub open spec fn entry_at(chain: Map<u64, BlockChainEntry>, h: u64) -> BlockChainEntry {
    if chain.contains_key(h) {
        chain[h]
    } else {
        BlockChainEntry::Vacant { block_height: h }
    }
}

/// Nothing is recorded in the chain map.
pub open spec fn recorded_none(chain: Map<u64, BlockChainEntry>) -> bool {
    forall|k: u64| !(#[trigger] chain.contains_key(k))
}

/// The highest height recorded in a chain map.
pub open spec fn max_key(chain: Map<u64, BlockChainEntry>) -> u64 {
    choose|m: u64| chain.contains_key(m) && forall|k: u64| #[trigger] chain.contains_key(k) ==> k <= m
}

/// A recorded height that no other recorded height exceeds is the highest.
pub proof fn lemma_max_key(chain: Map<u64, BlockChainEntry>, m: u64)
    requires
        chain.contains_key(m),
        forall|k: u64| #[trigger] chain.contains_key(k) ==> k <= m,
    ensures
        max_key(chain) == m,
{
    let c = max_key(chain);
    assert(chain.contains_key(c) && forall|k: u64| #[trigger] chain.contains_key(k) ==> k <= c);
    assert(c <= m && m <= c);
}

/// The state after recording an entry.
pub open spec fn register_spec(v: BlockChainView, item: BlockChainEntry) -> BlockChainView {
    if item is Vacant {
        v
    } else {
        BlockChainView {
            chain: v.chain.insert(item.height_of(), item),
            index: match item.hash_of() {
                Some(h) => if v.index.contains_key(h) { v.index } else { v.index.insert(h, item.height_of()) },
                None => v.index,
            },
        }
    }
}

/// Reading back what was recorded: after a non-vacant entry is recorded, the
/// entry at its height is that entry, and every other height reads as before.
pub proof fn law_register_then_by_height(v: BlockChainView, item: BlockChainEntry, h: u64)
    requires
        !(item is Vacant),
    ensures
        entry_at(register_spec(v, item).chain, item.height_of()) == item,
        h != item.height_of() ==> entry_at(register_spec(v, item).chain, h) == entry_at(v.chain, h),
{
}

/// Recording a vacancy changes nothing.
pub proof fn law_register_vacant_is_noop(v: BlockChainView, item: BlockChainEntry)
    requires
        item is Vacant,
    ensures
        register_spec(v, item) == v,
{
}

/// A block hash, once recorded, is found at the height it was first
/// recorded under; recording it again at another height does not move it.
pub proof fn law_register_then_by_hash(v: BlockChainView, item: BlockChainEntry)
    requires
        !(item is Vacant),
        item.hash_of() is Some,
    ensures
        register_spec(v, item).index.contains_key(item.hash_of().unwrap()),
        v.index.contains_key(item.hash_of().unwrap()) ==> register_spec(v, item).index[item.hash_of().unwrap()]
            == v.index[item.hash_of().unwrap()],
        !v.index.contains_key(item.hash_of().unwrap()) ==> register_spec(v, item).index[item.hash_of().unwrap()]
            == item.height_of(),
{
}

/// Removing the entry recorded at a height that was free before gives back
/// the chain as it was, and, for a block hash that was new, the index as it was.
pub proof fn law_remove_undoes_register(v: BlockChainView, item: BlockChainEntry)
    requires
        !(item is Vacant),
        !v.chain.contains_key(item.height_of()),
    ensures
        register_spec(v, item).chain.remove(item.height_of()) == v.chain,
        (item.hash_of() matches Some(h) && !v.index.contains_key(h)) ==> register_spec(v, item).index.remove(
            item.hash_of().unwrap(),
        ) == v.index,
{
    assert(register_spec(v, item).chain.remove(item.height_of()) =~= v.chain);
    if let Some(h) = item.hash_of() {
        if !v.index.contains_key(h) {
            assert(register_spec(v, item).index.remove(h) =~= v.index);
        }
    }
}

/// Recording the same entry twice is the same as recording it once.
pub proof fn law_register_idempotent(v: BlockChainView, item: BlockChainEntry)
    ensures
        register_spec(register_spec(v, item), item) == register_spec(v, item),
{
    if !(item is Vacant) {
        assert(register_spec(register_spec(v, item), item).chain =~= register_spec(v, item).chain);
        assert(register_spec(register_spec(v, item), item).index =~= register_spec(v, item).index);
    }
}

/// Whether the block at a height is an immediate switch block, where known.
pub open spec fn immediate_switch_spec(chain: Map<u64, BlockChainEntry>, h: u64) -> Option<bool> {
    match entry_at(chain, h).switch_of() {
        None => None,
        Some(switch) => if h == 0 {
            Some(true)
        } else if switch {
            entry_at(chain, (h - 1) as u64).switch_of()
        } else {
            Some(false)
        },
    }
}

/// The abstract state of a [`BlockChain`]: the recorded entries by height,
/// and the block heights recorded by block hash.
pub ghost struct BlockChainView {
    pub chain: Map<u64, BlockChainEntry>,
    pub index: Map<BlockHash, u64>,
}

/// The block chain index.
#[derive(Debug)]
pub struct BlockChain {
    chain: BTreeMap<u64, BlockChainEntry>,
    // The heights by block hash, as a list without repeated hashes: vstd
    // specifies the contents of a map only for keys with a specified
    // ordering or hashing, which a 32-byte hash does not have.
    index: Vec<(BlockHash, u64)>,
}

/// The map that an association list without repeated keys stands for.
pub open spec fn pairs_map(pairs: Seq<(BlockHash, u64)>) -> Map<BlockHash, u64> {
    Map::new(
        |h: BlockHash| exists|i: int| 0 <= i < pairs.len() && (#[trigger] pairs[i]).0 == h,
        |h: BlockHash| pairs[choose|i: int| 0 <= i < pairs.len() && (#[trigger] pairs[i]).0 == h].1,
    )
}

/// No key occurs twice in the association list.
pub open spec fn unique_keys(pairs: Seq<(BlockHash, u64)>) -> bool {
    forall|i: int, j: int| 0 <= i < j < pairs.len() ==> (#[trigger] pairs[i]).0 != (#[trigger] pairs[j]).0
}

impl View for BlockChain {
    type V = BlockChainView;

    closed spec fn view(&self) -> BlockChainView {
        BlockChainView { chain: self.chain@, index: pairs_map(self.index@) }
    }
}

impl BlockChain {
    /// The index is consistent: every recorded entry is stored under its own
    /// height and is not vacant, and no block hash is indexed twice.
    pub closed spec fn wf(&self) -> bool {
        &&& forall|h: u64| #[trigger] self.chain@.contains_key(h) ==> self.chain@[h].height_of() == h
            && !(self.chain@[h] is Vacant)
        &&& unique_keys(self.index@)
    }

    proof fn lemma_pairs_lookup(pairs: Seq<(BlockHash, u64)>, i: int)
        requires
            unique_keys(pairs),
            0 <= i < pairs.len(),
        ensures
            pairs_map(pairs).contains_key(pairs[i].0),
            pairs_map(pairs)[pairs[i].0] == pairs[i].1,
    {
        let h = pairs[i].0;
        assert(pairs_map(pairs).dom().contains(h));
        let j = choose|j: int| 0 <= j < pairs.len() && (#[trigger] pairs[j]).0 == h;
        if j != i {
            if j < i {
                assert(pairs[j].0 != pairs[i].0);
            } else {
                assert(pairs[i].0 != pairs[j].0);
            }
        }
    }

    /// Creates an empty index.
    pub fn new() -> (r: Self)
        ensures
            r.wf(),
            r@.chain == Map::<u64, BlockChainEntry>::empty(),
            r@.index == Map::<BlockHash, u64>::empty(),
    {
        let r = BlockChain { chain: BTreeMap::new(), index: Vec::new() };
        assert(r@.index =~= Map::<BlockHash, u64>::empty());
        r
    }

    /// Whether no entry is recorded.
    pub fn is_chain_empty(&self) -> (r: bool)
        ensures
            r == (self@.chain.dom() =~= Set::<u64>::empty()),
    {
        let r = self.chain.is_empty();
        proof {
            if !r {
                let k = self.chain@.dom().choose();
                assert(self.chain@.dom().contains(k));
            }
        }
        r
    }

    /// Whether no block hash is indexed.
    pub fn is_index_empty(&self) -> (r: bool)
        ensures
            r == (self@.index.dom() =~= Set::<BlockHash>::empty()),
    {
        let r = self.index.len() == 0;
        proof {
            if !r {
                assert(self@.index.dom().contains(self.index@[0].0));
            }
        }
        r
    }

    fn index_position(&self, block_hash: &BlockHash) -> (r: Option<usize>)
        requires
            self.wf(),
        ensures
            match r {
                Some(i) => i < self.index@.len() && self.index@[i as int].0 == *block_hash,
                None => !self@.index.contains_key(*block_hash),
            },
    {
        let mut i: usize = 0;
        while i < self.index.len()
            invariant
                0 <= i <= self.index@.len(),
                forall|j: int| 0 <= j < i ==> (#[trigger] self.index@[j]).0 != *block_hash,
            decreases self.index@.len() - i,
        {
            if self.index[i].0.same_as(block_hash) {
                return Some(i);
            }
            i += 1;
        }
        None
    }

    fn index_get(&self, block_hash: &BlockHash) -> (r: Option<u64>)
        requires
            self.wf(),
        ensures
            r == (if self@.index.contains_key(*block_hash) {
                Some(self@.index[*block_hash])
            } else {
                None
            }),
    {
        match self.index_position(block_hash) {
            Some(i) => {
                proof {
                    Self::lemma_pairs_lookup(self.index@, i as int);
                }
                Some(self.index[i].1)
            },
            None => None,
        }
    }


    /// Records an entry. Vacant entries are not stored; a block hash is
    /// indexed unless it is indexed already, and the entry replaces whatever
    /// was recorded at its height.
    fn register(&mut self, item: BlockChainEntry)
        requires
            old(self).wf(),
        ensures
            final(self).wf(),
            final(self)@ == register_spec(old(self)@, item),
    {
        if item.is_vacant() {
            return;
        }
        let block_height = item.block_height();
        if let Some(block_hash) = item.block_hash() {
            match self.index_position(&block_hash) {
                Some(_) => {},
                None => {
                    let ghost before = self.index@;
                    self.index.push((block_hash, block_height));
                    proof {
                        assert(unique_keys(self.index@)) by {
                            assert forall|i: int, j: int| 0 <= i < j < self.index@.len()
                                implies (#[trigger] self.index@[i]).0 != (#[trigger] self.index@[j]).0 by {
                                if j == before.len() {
                                    assert(pairs_map(before).contains_key(before[i].0));
                                }
                            }
                        }
                        assert(pairs_map(self.index@) =~= pairs_map(before).insert(block_hash, block_height)) by {
                            assert forall|h: BlockHash| #[trigger] pairs_map(self.index@).contains_key(h)
                                == pairs_map(before).insert(block_hash, block_height).contains_key(h) by {
                                if pairs_map(self.index@).contains_key(h) {
                                    let j = choose|j: int| 0 <= j < self.index@.len() && (#[trigger] self.index@[j]).0 == h;
                                    if j < before.len() { assert(before[j] == self.index@[j]); }
                                }
                                if pairs_map(before).contains_key(h) {
                                    let j = choose|j: int| 0 <= j < before.len() && (#[trigger] before[j]).0 == h;
                                    assert(before[j] == self.index@[j]);
                                }
                                if h == block_hash {
                                    assert(self.index@[before.len() as int].0 == h);
                                }
                            }
                            assert forall|h: BlockHash| #[trigger] pairs_map(self.index@).contains_key(h)
                                implies pairs_map(self.index@)[h] == pairs_map(before).insert(block_hash, block_height)[h] by {
                                let j = choose|j: int| 0 <= j < self.index@.len() && (#[trigger] self.index@[j]).0 == h;
                                Self::lemma_pairs_lookup(self.index@, j);
                                if j < before.len() {
                                    assert(before[j] == self.index@[j]);
                                    Self::lemma_pairs_lookup(before, j);
                                }
                            }
                        }
                    }
                },
            }
        }
        self.chain.insert(block_height, item);
    }

    /// Records a proposed block, unless a non-vacant entry is known above it.
    pub fn register_proposed(&mut self, block_height: u64) -> (r: Result<(), Error>)
        requires
            old(self).wf(),
        ensures
            final(self).wf(),
            r is Err <==> exists|k: u64| #[trigger] old(self)@.chain.contains_key(k) && k > block_height,
            r is Err ==> r == Err::<(), Error>(Error::AttemptToProposeAboveTail) && final(self)@ == old(self)@,
            r is Ok ==> final(self)@ == register_spec(old(self)@, BlockChainEntry::Proposed { block_height }),
    {
        if let Some(highest) = self.highest(BlockChainEntry::all_non_vacant) {
            if highest.block_height() > block_height {
                return Err(Error::AttemptToProposeAboveTail);
            }
        }
        self.register(BlockChainEntry::new_proposed(block_height));
        Ok(())
    }

    /// Records a finalized block.
    pub fn register_finalized(&mut self, block_height: u64)
        requires
            old(self).wf(),
        ensures
            final(self).wf(),
            final(self)@ == register_spec(old(self)@, BlockChainEntry::Finalized { block_height }),
    {
        self.register(BlockChainEntry::new_finalized(block_height));
    }

    /// Records a block that is not yet complete.
    pub fn register_incomplete(&mut self, block_height: u64, block_hash: &BlockHash)
        requires
            old(self).wf(),
        ensures
            final(self).wf(),
            final(self)@ == register_spec(
                old(self)@,
                BlockChainEntry::Incomplete { block_height, block_hash: *block_hash },
            ),
    {
        self.register(BlockChainEntry::new_incomplete(block_height, block_hash));
    }

    /// Records a complete block.
    pub fn register_complete(&mut self, block_header: &BlockHeader)
        requires
            old(self).wf(),
        ensures
            final(self).wf(),
            final(self)@ == register_spec(
                old(self)@,
                BlockChainEntry::Complete {
                    block_height: block_header.height,
                    block_hash: block_header.block_hash,
                    era_id: block_header.era_id,
                    is_switch_block: block_header.is_switch_block,
                },
            ),
    {
        self.register(BlockChainEntry::new_complete(block_header));
    }

    /// Records a complete block from its parts.
    pub fn register_complete_from_parts(
        &mut self,
        block_height: u64,
        block_hash: BlockHash,
        era_id: EraId,
        is_switch_block: bool,
    )
        requires
            old(self).wf(),
        ensures
            final(self).wf(),
            final(self)@ == register_spec(
                old(self)@,
                BlockChainEntry::Complete { block_height, block_hash, era_id, is_switch_block },
            ),
    {
        self.register(BlockChainEntry::Complete { block_height, block_hash, era_id, is_switch_block });
    }

    /// The entry at a height; a vacancy where nothing is recorded.
    pub fn by_height(&self, block_height: u64) -> (r: BlockChainEntry)
        requires
            self.wf(),
        ensures
            r == entry_at(self@.chain, block_height),
    {
        match self.chain.get(&block_height) {
            Some(e) => *e,
            None => BlockChainEntry::vacant(block_height),
        }
    }

    /// The entry at the height that the block hash is indexed under, if it is.
    pub fn by_hash(&self, block_hash: &BlockHash) -> (r: Option<BlockChainEntry>)
        requires
            self.wf(),
        ensures
            r == (if self@.index.contains_key(*block_hash) {
                Some(entry_at(self@.chain, self@.index[*block_hash]))
            } else {
                None
            }),
    {
        if let Some(height) = self.index_get(block_hash) {
            return Some(self.by_height(height));
        }
        None
    }

    /// The entry one above the height that the parent's hash is indexed under.
    pub fn by_parent(&self, parent_block_hash: &BlockHash) -> (r: Option<BlockChainEntry>)
        requires
            self.wf(),
            self@.index.contains_key(*parent_block_hash) ==> self@.index[*parent_block_hash] < u64::MAX,
        ensures
            r == (if self@.index.contains_key(*parent_block_hash) {
                Some(entry_at(self@.chain, (self@.index[*parent_block_hash] + 1) as u64))
            } else {
                None
            }),
    {
        if let Some(height) = self.index_get(parent_block_hash) {
            return Some(self.by_height(height + 1));
        }
        None
    }

    /// The entry one below the height that the child's hash is indexed under;
    /// none for a child at height zero.
    pub fn by_child(&self, child_block_hash: &BlockHash) -> (r: Option<BlockChainEntry>)
        requires
            self.wf(),
        ensures
            r == (if self@.index.contains_key(*child_block_hash) && self@.index[*child_block_hash] != 0 {
                Some(entry_at(self@.chain, (self@.index[*child_block_hash] - 1) as u64))
            } else {
                None
            }),
    {
        if let Some(height) = self.index_get(child_block_hash) {
            if height == 0 {
                return None;
            }
            return Some(self.by_height(height - 1));
        }
        None
    }

    /// Whether the block at the height is recorded as incomplete.
    pub fn is_incomplete(&self, block_height: u64) -> (r: bool)
        requires
            self.wf(),
        ensures
            r == (entry_at(self@.chain, block_height) is Incomplete),
    {
        match self.chain.get(&block_height) {
            Some(b) => b.is_incomplete(),
            None => false,
        }
    }

    /// Whether the block at the height is recorded as complete.
    pub fn is_complete(&self, block_height: u64) -> (r: bool)
        requires
            self.wf(),
        ensures
            r == (entry_at(self@.chain, block_height) is Complete),
    {
        match self.chain.get(&block_height) {
            Some(b) => b.is_complete(),
            None => false,
        }
    }

    /// Whether the block at the height is a switch block, where known.
    pub fn is_switch_block(&self, block_height: u64) -> (r: Option<bool>)
        requires
            self.wf(),
        ensures
            r == entry_at(self@.chain, block_height).switch_of(),
    {
        match self.chain.get(&block_height) {
            Some(b) => b.is_switch_block(),
            None => None,
        }
    }

    /// Whether the block at the height is an immediate switch block: a switch
    /// block whose parent is a switch block too. The block at height zero is
    /// one whenever its switch status is known.
    pub fn is_immediate_switch_block(&self, block_height: u64) -> (r: Option<bool>)
        requires
            self.wf(),
        ensures
            r == immediate_switch_spec(self@.chain, block_height),
    {
        if let Some(switch) = self.is_switch_block(block_height) {
            if block_height == 0 {
                return Some(true);
            }
            return if switch {
                self.is_switch_block(block_height - 1)
            } else {
                Some(false)
            };
        }
        None
    }


    /// The lowest recorded entry that the predicate selects, if any.
    pub fn lowest<F: Fn(&BlockChainEntry) -> bool>(&self, predicate: F) -> (r: Option<&BlockChainEntry>)
        requires
            self.wf(),
            is_filter(predicate),
        ensures
            match r {
                Some(e) => self@.chain.contains_key(e.height_of()) && self@.chain[e.height_of()] == *e
                    && selects(predicate, *e)
                    && forall|k: u64| #[trigger] self@.chain.contains_key(k) && k < e.height_of()
                        ==> rejects(predicate, self@.chain[k]),
                None => forall|k: u64| #[trigger] self@.chain.contains_key(k) ==> rejects(predicate, self@.chain[k]),
            },
    {
        let keys = keys_in_order(&self.chain);
        let mut i: usize = 0;
        while i < keys.len()
            invariant
                self.wf(),
                is_filter(predicate),
                0 <= i <= keys.len(),
                forall|a: int, b: int| 0 <= a < b < keys.len() ==> keys@[a] < keys@[b],
                forall|a: int| 0 <= a < keys.len() ==> self.chain@.contains_key(#[trigger] keys@[a]),
                forall|k: u64| self.chain@.contains_key(k) ==> keys@.contains(k),
                forall|j: int| 0 <= j < i ==> rejects(predicate, self.chain@[#[trigger] keys@[j]]),
            decreases keys.len() - i,
        {
            let k = keys[i];
            let e = self.chain.get(&k).unwrap();
            if predicate(e) {
                proof {
                    assert forall|k2: u64| #[trigger] self.chain@.contains_key(k2) && k2 < e.height_of()
                        implies rejects(predicate, self.chain@[k2]) by {
                        assert(keys@.contains(k2));
                        let j = choose|j: int| 0 <= j < keys.len() && keys@[j] == k2;
                        if j >= i { if j > i { assert(keys@[i as int] < keys@[j]); } }
                    }
                }
                return Some(e);
            }
            i += 1;
        }
        proof {
            assert forall|k: u64| #[trigger] self.chain@.contains_key(k) implies rejects(predicate, self.chain@[k]) by {
                assert(keys@.contains(k));
                let j = choose|j: int| 0 <= j < keys.len() && keys@[j] == k;
                assert(rejects(predicate, self.chain@[keys@[j]]));
            }
        }
        None
    }

    /// The highest recorded entry that the predicate selects, if any.
    pub fn highest<F: Fn(&BlockChainEntry) -> bool>(&self, predicate: F) -> (r: Option<&BlockChainEntry>)
        requires
            self.wf(),
            is_filter(predicate),
        ensures
            match r {
                Some(e) => self@.chain.contains_key(e.height_of()) && self@.chain[e.height_of()] == *e
                    && selects(predicate, *e)
                    && forall|k: u64| #[trigger] self@.chain.contains_key(k) && k > e.height_of()
                        ==> rejects(predicate, self@.chain[k]),
                None => forall|k: u64| #[trigger] self@.chain.contains_key(k) ==> rejects(predicate, self@.chain[k]),
            },
    {
        let keys = keys_in_order(&self.chain);
        let mut i: usize = keys.len();
        while i > 0
            invariant
                self.wf(),
                is_filter(predicate),
                0 <= i <= keys.len(),
                forall|a: int, b: int| 0 <= a < b < keys.len() ==> keys@[a] < keys@[b],
                forall|a: int| 0 <= a < keys.len() ==> self.chain@.contains_key(#[trigger] keys@[a]),
                forall|k: u64| self.chain@.contains_key(k) ==> keys@.contains(k),
                forall|j: int| i <= j < keys.len() ==> rejects(predicate, self.chain@[#[trigger] keys@[j]]),
            decreases i,
        {
            i -= 1;
            let k = keys[i];
            let e = self.chain.get(&k).unwrap();
            if predicate(e) {
                proof {
                    assert forall|k2: u64| #[trigger] self.chain@.contains_key(k2) && k2 > e.height_of()
                        implies rejects(predicate, self.chain@[k2]) by {
                        assert(keys@.contains(k2));
                        let j = choose|j: int| 0 <= j < keys.len() && keys@[j] == k2;
                        if j <= i { if j < i { assert(keys@[j] < keys@[i as int]); } }
                    }
                }
                return Some(e);
            }
        }
        proof {
            assert forall|k: u64| #[trigger] self.chain@.contains_key(k) implies rejects(predicate, self.chain@[k]) by {
                assert(keys@.contains(k));
                let j = choose|j: int| 0 <= j < keys.len() && keys@[j] == k;
                assert(rejects(predicate, self.chain@[keys@[j]]));
            }
        }
        None
    }

    /// The lowest complete switch block, if any.
    pub fn lowest_switch_block(&self) -> (r: Option<&BlockChainEntry>)
        requires
            self.wf(),
        ensures
            match r {
                Some(e) => self@.chain.contains_key(e.height_of()) && self@.chain[e.height_of()] == *e
                    && e.complete_switch()
                    && forall|k: u64| #[trigger] self@.chain.contains_key(k) && k < e.height_of()
                        ==> !self@.chain[k].complete_switch(),
                None => forall|k: u64| #[trigger] self@.chain.contains_key(k) ==> !self@.chain[k].complete_switch(),
            },
    {
        self.lowest(BlockChainEntry::is_complete_switch_block)
    }

    /// The highest complete switch block, if any.
    pub fn highest_switch_block(&self) -> (r: Option<&BlockChainEntry>)
        requires
            self.wf(),
        ensures
            match r {
                Some(e) => self@.chain.contains_key(e.height_of()) && self@.chain[e.height_of()] == *e
                    && e.complete_switch()
                    && forall|k: u64| #[trigger] self@.chain.contains_key(k) && k > e.height_of()
                        ==> !self@.chain[k].complete_switch(),
                None => forall|k: u64| #[trigger] self@.chain.contains_key(k) ==> !self@.chain[k].complete_switch(),
            },
    {
        self.highest(BlockChainEntry::is_complete_switch_block)
    }


    /// Every recorded entry that the predicate selects, by increasing height.
    pub fn all_by<F: Fn(&BlockChainEntry) -> bool>(&self, predicate: F) -> (r: Vec<&BlockChainEntry>)
        requires
            self.wf(),
            is_filter(predicate),
        ensures
            forall|i: int| 0 <= i < r.len() ==> self@.chain.contains_key((#[trigger] r@[i]).height_of())
                && self@.chain[r@[i].height_of()] == *r@[i] && selects(predicate, *r@[i]),
            forall|i: int, j: int| 0 <= i < j < r.len() ==> (#[trigger] r@[i]).height_of() < (#[trigger] r@[j]).height_of(),
            forall|k: u64| #[trigger] self@.chain.contains_key(k) ==> rejects(predicate, self@.chain[k])
                || exists|i: int| 0 <= i < r.len() && (#[trigger] r@[i]).height_of() == k,
    {
        let keys = keys_in_order(&self.chain);
        let mut out: Vec<&BlockChainEntry> = Vec::new();
        let mut i: usize = 0;
        while i < keys.len()
            invariant
                self.wf(),
                is_filter(predicate),
                0 <= i <= keys.len(),
                forall|a: int, b: int| 0 <= a < b < keys.len() ==> keys@[a] < keys@[b],
                forall|a: int| 0 <= a < keys.len() ==> self.chain@.contains_key(#[trigger] keys@[a]),
                forall|k: u64| self.chain@.contains_key(k) ==> keys@.contains(k),
                forall|a: int| 0 <= a < out.len() ==> self.chain@.contains_key((#[trigger] out@[a]).height_of())
                    && self.chain@[out@[a].height_of()] == *out@[a] && selects(predicate, *out@[a]),
                forall|a: int, b: int| 0 <= a < b < out.len() ==> (#[trigger] out@[a]).height_of() < (#[trigger] out@[b]).height_of(),
                forall|a: int| 0 <= a < out.len() ==> exists|j: int| 0 <= j < i && keys@[j] == (#[trigger] out@[a]).height_of(),
                forall|j: int| 0 <= j < i ==> rejects(predicate, self.chain@[#[trigger] keys@[j]])
                    || exists|a: int| 0 <= a < out.len() && (#[trigger] out@[a]).height_of() == keys@[j],
            decreases keys.len() - i,
        {
            let k = keys[i];
            let e = self.chain.get(&k).unwrap();
            let ghost before = out@;
            if predicate(e) {
                proof {
                    assert forall|a: int| 0 <= a < before.len() implies before[a].height_of() < k by {
                        let j = choose|j: int| 0 <= j < i && keys@[j] == (#[trigger] before[a]).height_of();
                    }
                }
                out.push(e);
                proof {
                    assert(out@[before.len() as int].height_of() == keys@[i as int]);
                    assert forall|j: int| 0 <= j < i + 1 implies rejects(predicate, self.chain@[#[trigger] keys@[j]])
                        || exists|a: int| 0 <= a < out.len() && (#[trigger] out@[a]).height_of() == keys@[j] by {
                        if j < i {
                            if !rejects(predicate, self.chain@[keys@[j]]) {
                                let a = choose|a: int| 0 <= a < before.len() && (#[trigger] before[a]).height_of() == keys@[j];
                                assert(out@[a] == before[a]);
                            }
                        }
                    }
                    assert forall|a: int| 0 <= a < out.len() implies exists|j: int| 0 <= j < i + 1 && keys@[j] == (#[trigger] out@[a]).height_of() by {
                        if a < before.len() {
                            assert(out@[a] == before[a]);
                            let j = choose|j: int| 0 <= j < i && keys@[j] == (#[trigger] before[a]).height_of();
                        } else {
                            assert(keys@[i as int] == out@[a].height_of());
                        }
                    }
                }
            }
            i += 1;
        }
        proof {
            assert forall|k: u64| #[trigger] self.chain@.contains_key(k) implies rejects(predicate, self.chain@[k])
                || exists|a: int| 0 <= a < out.len() && (#[trigger] out@[a]).height_of() == k by {
                assert(keys@.contains(k));
                let j = choose|j: int| 0 <= j < keys.len() && keys@[j] == k;
                assert(rejects(predicate, self.chain@[keys@[j]])
                    || exists|a: int| 0 <= a < out.len() && (#[trigger] out@[a]).height_of() == keys@[j]);
            }
        }
        out
    }

    fn max_height(&self) -> (r: u64)
        requires
            self.wf(),
        ensures
            !recorded_none(self@.chain) ==> self@.chain.contains_key(r),
            forall|k: u64| #[trigger] self@.chain.contains_key(k) ==> k <= r,
            recorded_none(self@.chain) ==> r == 0,
    {
        let keys = keys_in_order(&self.chain);
        if keys.len() == 0 {
            proof {
                assert forall|k: u64| !(#[trigger] self.chain@.contains_key(k)) by {
                    if self.chain@.contains_key(k) { assert(keys@.contains(k)); }
                }
            }
            return 0;
        }
        let r = keys[keys.len() - 1];
        proof {
            assert forall|k: u64| #[trigger] self.chain@.contains_key(k) implies k <= r by {
                assert(keys@.contains(k));
                let j = choose|j: int| 0 <= j < keys.len() && keys@[j] == k;
                if j < keys.len() - 1 { assert(keys@[j] < keys@[keys.len() - 1]); }
            }
        }
        r
    }

    /// The entries at every height from `lbound` (default zero) to `ubound`
    /// (default the highest recorded height), vacancies included. Empty when
    /// nothing is recorded or the bounds are reversed.
    pub fn range(&self, lbound: Option<u64>, ubound: Option<u64>) -> (r: Vec<BlockChainEntry>)
        requires
            self.wf(),
        ensures
            ({
                let lo = match lbound { Some(l) => l, None => 0u64 };
                let hi = match ubound { Some(u) => u, None => max_key(self@.chain) };
                if recorded_none(self@.chain) || lo > hi {
                    r.len() == 0
                } else {
                    &&& r.len() == hi - lo + 1
                    &&& forall|i: int| 0 <= i < r.len() ==> #[trigger] r@[i] == entry_at(self@.chain, (lo + i) as u64)
                }
            }),
    {
        let mut ret: Vec<BlockChainEntry> = Vec::new();
        if self.chain.is_empty() {
            return ret;
        }
        let low = match lbound { Some(l) => l, None => 0 };
        let hi = match ubound {
            Some(u) => u,
            None => {
                let m = self.max_height();
                proof {
                    assert(!recorded_none(self@.chain)) by {
                        let k = self.chain@.dom().choose();
                        assert(self.chain@.dom().contains(k));
                    }
                    lemma_max_key(self@.chain, m);
                }
                m
            },
        };
        if low > hi {
            return ret;
        }
        let mut height = low;
        loop
            invariant_except_break
                low <= height <= hi,
                ret.len() == height - low,
            invariant
                self.wf(),
                forall|i: int| 0 <= i < ret.len() ==> #[trigger] ret@[i] == entry_at(self@.chain, (low + i) as u64),
            ensures
                ret.len() == hi - low + 1,
            decreases hi - height,
        {
            ret.push(self.by_height(height));
            if height == hi {
                break;
            }
            height += 1;
        }
        proof {
            assert(!recorded_none(self@.chain)) by {
                let k = self.chain@.dom().choose();
                assert(self.chain@.dom().contains(k));
            }
        }
        ret
    }


    /// The lowest run of consecutive heights whose entries the predicate
    /// selects: it starts at the lowest recorded entry that is selected and
    /// goes up, vacancies included, until an entry is not selected.
    pub fn lowest_sequence<F: Fn(&BlockChainEntry) -> bool>(&self, predicate: F) -> (r: Vec<BlockChainEntry>)
        requires
            self.wf(),
            is_filter(predicate),
            forall|h: u64| !(#[trigger] selects(predicate, BlockChainEntry::Vacant { block_height: h })),
            self@.chain.contains_key(u64::MAX) ==> !selects(predicate, self@.chain[u64::MAX]),
        ensures
            r.len() == 0 ==> forall|k: u64| #[trigger] self@.chain.contains_key(k) ==> rejects(predicate, self@.chain[k]),
            r.len() > 0 ==> {
                let s = r@[0].height_of();
                &&& self@.chain.contains_key(s)
                &&& forall|k: u64| #[trigger] self@.chain.contains_key(k) && k < s ==> rejects(predicate, self@.chain[k])
                &&& s + r.len() <= u64::MAX
                &&& forall|i: int| 0 <= i < r.len() ==> #[trigger] r@[i] == entry_at(self@.chain, (s + i) as u64)
                    && selects(predicate, r@[i])
                &&& rejects(predicate, entry_at(self@.chain, (s + r.len()) as u64))
            },
    {
        let keys = keys_in_order(&self.chain);
        let mut i: usize = 0;
        let mut start: Option<BlockChainEntry> = None;
        while i < keys.len()
            invariant_except_break
                start is None,
            invariant
                self.wf(),
                is_filter(predicate),
                0 <= i <= keys.len(),
                forall|a: int, b: int| 0 <= a < b < keys.len() ==> keys@[a] < keys@[b],
                forall|a: int| 0 <= a < keys.len() ==> self.chain@.contains_key(#[trigger] keys@[a]),
                forall|k: u64| self.chain@.contains_key(k) ==> keys@.contains(k),
                forall|j: int| 0 <= j < i ==> rejects(predicate, self.chain@[#[trigger] keys@[j]]),
            ensures
                start is None ==> i == keys.len(),
                start matches Some(e) ==> self@.chain.contains_key(e.height_of()) && self@.chain[e.height_of()] == e
                    && selects(predicate, e)
                    && forall|k: u64| #[trigger] self@.chain.contains_key(k) && k < e.height_of()
                        ==> rejects(predicate, self@.chain[k]),
            decreases keys.len() - i,
        {
            let k = keys[i];
            let e = self.chain.get(&k).unwrap();
            if predicate(e) {
                start = Some(*e);
                proof {
                    assert forall|k2: u64| #[trigger] self.chain@.contains_key(k2) && k2 < e.height_of()
                        implies rejects(predicate, self.chain@[k2]) by {
                        assert(keys@.contains(k2));
                        let j = choose|j: int| 0 <= j < keys.len() && keys@[j] == k2;
                        if j >= i { if j > i { assert(keys@[i as int] < keys@[j]); } }
                    }
                }
                break;
            }
            i += 1;
        }
        match start {
            None => {
                proof {
                    assert forall|k: u64| #[trigger] self.chain@.contains_key(k) implies rejects(predicate, self.chain@[k]) by {
                        assert(keys@.contains(k));
                        let j = choose|j: int| 0 <= j < keys.len() && keys@[j] == k;
                        assert(rejects(predicate, self.chain@[keys@[j]]));
                    }
                }
                Vec::new()
            },
            Some(entry) => {
                let s = entry.block_height();
                let mut ret: Vec<BlockChainEntry> = Vec::new();
                ret.push(entry);
                let mut idx: u64 = s;
                loop
                    invariant_except_break
                        idx < u64::MAX,
                    invariant
                        self.wf(),
                        is_filter(predicate),
                        forall|h: u64| !(#[trigger] selects(predicate, BlockChainEntry::Vacant { block_height: h })),
                        self@.chain.contains_key(u64::MAX) ==> !selects(predicate, self@.chain[u64::MAX]),
                        s <= idx,
                        ret.len() == idx - s + 1,
                        ret@[0] == entry,
                        entry.height_of() == s,
                        forall|i: int| 0 <= i < ret.len() ==> #[trigger] ret@[i] == entry_at(self@.chain, (s + i) as u64)
                            && selects(predicate, ret@[i]),
                    ensures
                        rejects(predicate, entry_at(self@.chain, (s + ret.len()) as u64)),
                        s + ret.len() <= u64::MAX,
                    decreases u64::MAX - idx,
                {
                    let item = self.by_height(idx + 1);
                    if predicate(&item) {
                        ret.push(item);
                        idx = idx + 1;
                        if idx == u64::MAX {
                            proof {
                                assert(selects(predicate, item));
                                if !self@.chain.contains_key(u64::MAX) {
                                    assert(item == BlockChainEntry::Vacant { block_height: u64::MAX });
                                }
                            }
                            assert(false);
                        }
                    } else {
                        break;
                    }
                }
                ret
            },
        }
    }


    /// The highest run of recorded entries that the predicate selects,
    /// highest first: it starts at the highest selected entry and goes down
    /// through the recorded heights (vacancies are skipped) until an entry is
    /// not selected.
    pub fn highest_sequence<F: Fn(&BlockChainEntry) -> bool>(&self, predicate: F) -> (r: Vec<&BlockChainEntry>)
        requires
            self.wf(),
            is_filter(predicate),
        ensures
            r.len() == 0 ==> forall|k: u64| #[trigger] self@.chain.contains_key(k) ==> rejects(predicate, self@.chain[k]),
            r.len() > 0 ==> forall|k: u64| #[trigger] self@.chain.contains_key(k) && k > r@[0].height_of()
                ==> rejects(predicate, self@.chain[k]),
            forall|i: int| 0 <= i < r.len() ==> self@.chain.contains_key((#[trigger] r@[i]).height_of())
                && self@.chain[r@[i].height_of()] == *r@[i] && selects(predicate, *r@[i]),
            forall|i: int| 0 <= i < r.len() - 1 ==> (#[trigger] r@[i + 1]).height_of() < r@[i].height_of()
                && forall|k: u64| #[trigger] self@.chain.contains_key(k) ==> !(r@[i + 1].height_of() < k < r@[i].height_of()),
            r.len() > 0 ==> forall|k: u64| #[trigger] self@.chain.contains_key(k) && k < r@[r.len() - 1].height_of()
                && (forall|k2: u64| #[trigger] self@.chain.contains_key(k2) ==> !(k < k2 < r@[r.len() - 1].height_of()))
                ==> rejects(predicate, self@.chain[k]),
    {
        let keys = keys_in_order(&self.chain);
        let mut ret: Vec<&BlockChainEntry> = Vec::new();
        let mut i: usize = keys.len();
        let ghost mut top: int = 0;
        while i > 0
            invariant_except_break
                ret.len() > 0 ==> ret.len() == top - i + 1,
            invariant
                self.wf(),
                is_filter(predicate),
                0 <= i <= keys.len(),
                forall|a: int, b: int| 0 <= a < b < keys.len() ==> keys@[a] < keys@[b],
                forall|a: int| 0 <= a < keys.len() ==> self.chain@.contains_key(#[trigger] keys@[a]),
                forall|k: u64| self.chain@.contains_key(k) ==> keys@.contains(k),
                ret.len() == 0 ==> forall|j: int| i <= j < keys.len() ==> rejects(predicate, self.chain@[#[trigger] keys@[j]]),
                ret.len() > 0 ==> {
                    &&& top < keys.len()
                    &&& ret.len() <= top + 1
                    &&& forall|m: int| 0 <= m < ret.len() ==> *(#[trigger] ret@[m]) == self.chain@[keys@[top - m]]
                        && keys@[top - m] == ret@[m].height_of()
                        && selects(predicate, *ret@[m])
                    &&& forall|j: int| top < j < keys.len() ==> rejects(predicate, self.chain@[#[trigger] keys@[j]])
                },
            ensures
                ret.len() > 0 ==> {
                    let low = top - ret.len() + 1;
                    low > 0 ==> rejects(predicate, self.chain@[keys@[low - 1]])
                },
                ret.len() == 0 ==> forall|j: int| 0 <= j < keys.len() ==> rejects(predicate, self.chain@[#[trigger] keys@[j]]),
            decreases i,
        {
            i -= 1;
            let k = keys[i];
            let item = self.chain.get(&k).unwrap();
            if predicate(item) {
                proof {
                    if ret.len() == 0 {
                        top = i as int;
                    }
                }
                ret.push(item);
                continue;
            }
            if ret.len() > 0 {
                break;
            }
        }
        proof {
            if ret.len() > 0 {
                let low = top - ret.len() + 1;
                assert forall|k: u64| #[trigger] self.chain@.contains_key(k) && k > ret@[0].height_of()
                    implies rejects(predicate, self.chain@[k]) by {
                    assert(keys@.contains(k));
                    let j = choose|j: int| 0 <= j < keys.len() && keys@[j] == k;
                    if j <= top { if j < top { assert(keys@[j] < keys@[top]); } }
                }
                assert forall|n: int| 0 <= n < ret.len() - 1 implies (#[trigger] ret@[n + 1]).height_of() < ret@[n].height_of()
                    && forall|k: u64| #[trigger] self.chain@.contains_key(k) ==> !(ret@[n + 1].height_of() < k < ret@[n].height_of()) by {
                    assert(keys@[top - (n + 1)] < keys@[top - n]);
                    assert forall|k: u64| #[trigger] self.chain@.contains_key(k) implies !(ret@[n + 1].height_of() < k < ret@[n].height_of()) by {
                        assert(keys@.contains(k));
                        let j = choose|j: int| 0 <= j < keys.len() && keys@[j] == k;
                        if j < top - (n + 1) { assert(keys@[j] < keys@[top - (n + 1)]); }
                        if j > top - n { assert(keys@[top - n] < keys@[j]); }
                    }
                }
                assert forall|k: u64| #[trigger] self.chain@.contains_key(k) && k < ret@[ret.len() - 1].height_of()
                    && (forall|k2: u64| #[trigger] self.chain@.contains_key(k2) ==> !(k < k2 < ret@[ret.len() - 1].height_of()))
                    implies rejects(predicate, self.chain@[k]) by {
                    assert(keys@.contains(k));
                    let j = choose|j: int| 0 <= j < keys.len() && keys@[j] == k;
                    assert(keys@[low] == ret@[ret.len() - 1].height_of());
                    if j >= low { if j > low { assert(keys@[low] < keys@[j]); } }
                    if j < low - 1 {
                        assert(keys@[j] < keys@[low - 1]);
                        assert(keys@[low - 1] < keys@[low]);
                        assert(self.chain@.contains_key(keys@[low - 1]));
                    }
                }
            } else {
                assert forall|k: u64| #[trigger] self.chain@.contains_key(k) implies rejects(predicate, self.chain@[k]) by {
                    assert(keys@.contains(k));
                    let j = choose|j: int| 0 <= j < keys.len() && keys@[j] == k;
                    assert(rejects(predicate, self.chain@[keys@[j]]));
                }
            }
        }
        ret
    }

    /// Removes the entry at a height, and its block hash from the reverse
    /// lookup. Returns the removed entry, if there was one.
    pub fn remove(&mut self, block_height: u64) -> (r: Option<BlockChainEntry>)
        requires
            old(self).wf(),
        ensures
            final(self).wf(),
            r == (if old(self)@.chain.contains_key(block_height) {
                Some(old(self)@.chain[block_height])
            } else {
                None
            }),
            final(self)@.chain == old(self)@.chain.remove(block_height),
            final(self)@.index == (match r {
                Some(e) => match e.hash_of() {
                    Some(h) => old(self)@.index.remove(h),
                    None => old(self)@.index,
                },
                None => old(self)@.index,
            }),
    {
        match self.chain.remove(&block_height) {
            Some(entry) => {
                if let Some(block_hash) = entry.block_hash() {
                    match self.index_position(&block_hash) {
                        Some(i) => {
                            let ghost before = self.index@;
                            self.index.remove(i);
                            proof {
                                assert(unique_keys(self.index@));
                                assert(pairs_map(self.index@) =~= pairs_map(before).remove(block_hash)) by {
                                    assert forall|h: BlockHash| #[trigger] pairs_map(self.index@).contains_key(h)
                                        == pairs_map(before).remove(block_hash).contains_key(h) by {
                                        if pairs_map(self.index@).contains_key(h) {
                                            let j = choose|j: int| 0 <= j < self.index@.len() && (#[trigger] self.index@[j]).0 == h;
                                            if j < i { assert(before[j] == self.index@[j]); } else { assert(before[j + 1] == self.index@[j]); }
                                        }
                                        if pairs_map(before).remove(block_hash).contains_key(h) {
                                            let j = choose|j: int| 0 <= j < before.len() && (#[trigger] before[j]).0 == h;
                                            if j < i { assert(before[j] == self.index@[j]); } else { assert(before[j] == self.index@[j - 1]); }
                                        }
                                    }
                                    assert forall|h: BlockHash| #[trigger] pairs_map(self.index@).contains_key(h)
                                        implies pairs_map(self.index@)[h] == pairs_map(before).remove(block_hash)[h] by {
                                        let j = choose|j: int| 0 <= j < self.index@.len() && (#[trigger] self.index@[j]).0 == h;
                                        Self::lemma_pairs_lookup(self.index@, j);
                                        if j < i {
                                            assert(before[j] == self.index@[j]);
                                            Self::lemma_pairs_lookup(before, j);
                                        } else {
                                            assert(before[j + 1] == self.index@[j]);
                                            Self::lemma_pairs_lookup(before, j + 1);
                                        }
                                    }
                                }
                            }
                        },
                        None => {
                            assert(pairs_map(self.index@).remove(block_hash) =~= pairs_map(self.index@));
                        },
                    }
                }
                Some(entry)
            },
            None => None,
        }
    }
}

} // verus!
