//! A tracking copy: reads and writes on global state that go through a
//! cache and are recorded as effects, leaving the state itself unchanged;
//! and the results of reading through it, of a query by path and of adding
//! to a stored value.
//!
//! Keys (normalized) and values are held as their serialized bytes; a read
//! that misses the cache is made on the state by the caller and reported
//! back, with the size the meter measures for it. Query results hand out
//! values of a type `V` that nothing here looks into; the details of
//! outside errors are kept as their text.

use vstd::prelude::*;

use crate::executor::GlobalStateError;
use crate::hash32::Hash32;
use crate::tracking_cache::{key_seqs, refreshed, sizes, with_read, evict, TrackingCopyCache};

verus! {

/// Why reading through a tracking copy failed.
#[derive(Clone, Debug, PartialEq, Eq)]
pub enum TrackingCopyError {
    /// The store failed, or has no state at the root.
    Storage(GlobalStateError<String>),
    /// No value was found, with the reason.
    ValueNotFound(String),
    /// The path came back to a key already visited.
    CircularReference(String),
    /// The query went deeper than allowed.
    QueryDepthLimit { depth: u64 },
}

/// The result of a query by path.
#[derive(Clone, Debug, PartialEq, Eq)]
pub enum TrackingCopyQueryResult<V> {
    /// The state root is unknown.
    RootNotFound,
    /// No value was found, with the reason.
    ValueNotFound(String),
    /// The path came back to a key already visited.
    CircularReference(String),
    /// The query reached the depth limit.
    DepthLimit { depth: u64 },
    /// The value found, with the proofs of each step (as bytes).
    Success { value: V, proofs: Vec<Vec<u8>> },
}

impl<V> TrackingCopyQueryResult<V> {
    /// Whether the query found a value.
    pub fn is_success(&self) -> (r: bool)
        ensures
            r == (self is Success),
    {
        match self {
            TrackingCopyQueryResult::Success { .. } => true,
            _ => false,
        }
    }

    /// The value found, or why there is none.
    pub fn into_result(self) -> (r: Result<V, TrackingCopyError>)
        ensures
            match self {
                TrackingCopyQueryResult::RootNotFound => r == Err::<V, TrackingCopyError>(
                    TrackingCopyError::Storage(GlobalStateError::RootNotFound),
                ),
                TrackingCopyQueryResult::ValueNotFound(m) => r matches Err(TrackingCopyError::ValueNotFound(e))
                    && e@ == m@,
                TrackingCopyQueryResult::CircularReference(m) => r matches Err(
                    TrackingCopyError::CircularReference(e),
                ) && e@ == m@,
                TrackingCopyQueryResult::DepthLimit { depth } => r == Err::<V, TrackingCopyError>(
                    TrackingCopyError::QueryDepthLimit { depth },
                ),
                TrackingCopyQueryResult::Success { value, .. } => r == Ok::<V, TrackingCopyError>(value),
            },
    {
        match self {
            TrackingCopyQueryResult::RootNotFound => Err(TrackingCopyError::Storage(GlobalStateError::RootNotFound)),
            TrackingCopyQueryResult::ValueNotFound(msg) => Err(TrackingCopyError::ValueNotFound(msg)),
            TrackingCopyQueryResult::CircularReference(msg) => Err(TrackingCopyError::CircularReference(msg)),
            TrackingCopyQueryResult::DepthLimit { depth } => Err(TrackingCopyError::QueryDepthLimit { depth }),
            TrackingCopyQueryResult::Success { value, .. } => Ok(value),
        }
    }
}

/// Why a value could not be decoded: its bytes, or its type (the expected
/// and the found type, as text).
#[derive(Clone, Debug, PartialEq, Eq)]
pub enum CLValueError {
    Serialization(String),
    Type { expected: String, found: String },
}

/// The result of adding to a stored value.
#[derive(Clone, Debug, PartialEq, Eq)]
pub enum AddResult {
    Success,
    /// Nothing is stored under the key.
    KeyNotFound(String),
    /// The stored and the added value do not fit together.
    TypeMismatch { expected: String, found: String },
    /// A value could not be decoded from its bytes.
    Serialization(String),
    /// The addition itself failed.
    Transform(String),
}

/// The add result for a value that could not be decoded.
pub open spec fn add_result_of(error: CLValueError) -> AddResult {
    match error {
        CLValueError::Serialization(e) => AddResult::Serialization(e),
        CLValueError::Type { expected, found } => AddResult::TypeMismatch { expected, found },
    }
}

impl From<CLValueError> for AddResult {
    fn from(error: CLValueError) -> (r: AddResult) {
        match error {
            CLValueError::Serialization(e) => AddResult::Serialization(e),
            CLValueError::Type { expected, found } => AddResult::TypeMismatch { expected, found },
        }
    }
}

impl vstd::std_specs::convert::FromSpecImpl<CLValueError> for AddResult {
    open spec fn obeys_from_spec() -> bool {
        true
    }

    open spec fn from_spec(v: CLValueError) -> AddResult {
        add_result_of(v)
    }
}

/// The size budget of a tracking copy's cached reads.
pub const DEFAULT_MAX_CACHE_SIZE: usize = 16384;

/// What a recorded effect does to its key.
#[derive(Clone, Debug, PartialEq, Eq)]
pub enum TransformKind {
    /// The key was read.
    Identity,
    /// The value was written.
    Write(Vec<u8>),
    /// The key was pruned (the key as given, before normalization).
    Prune(Vec<u8>),
}

/// A recorded effect on a key.
#[derive(Clone, Debug, PartialEq, Eq)]
pub struct Transform {
    pub key: Vec<u8>,
    pub kind: TransformKind,
}

/// A recorded effect, as byte sequences.
pub enum TransformView {
    Identity(Seq<u8>),
    Write(Seq<u8>, Seq<u8>),
    Prune(Seq<u8>, Seq<u8>),
}

/// The view of a recorded effect.
pub open spec fn transform_view(t: Transform) -> TransformView {
    match t.kind {
        TransformKind::Identity => TransformView::Identity(t.key@),
        TransformKind::Write(v) => TransformView::Write(t.key@, v@),
        TransformKind::Prune(k) => TransformView::Prune(t.key@, k@),
    }
}

/// The views of recorded effects.
pub open spec fn effect_views(effects: Seq<Transform>) -> Seq<TransformView> {
    effects.map_values(|t: Transform| transform_view(t))
}

/// Reads and writes on global state through a cache, recorded as effects.
pub struct TrackingCopy {
    pub cache: TrackingCopyCache,
    pub effects: Vec<Transform>,
    pub max_query_depth: u64,
    pub messages: Vec<Vec<u8>>,
    pub enable_addressable_entity: bool,
}

impl TrackingCopy {
    /// A tracking copy with an empty cache and no effects.
    pub fn new(max_query_depth: u64, enable_addressable_entity: bool) -> (r: TrackingCopy)
        ensures
            r.cache.wf(),
            r.cache.max() == DEFAULT_MAX_CACHE_SIZE,
            r.cache.counted() == 0,
            r.cache.reads().len() == 0,
            r.cache.muts() == Map::<Seq<u8>, Seq<u8>>::empty(),
            r.cache.prunes() == Set::<Seq<u8>>::empty(),
            r.effects@.len() == 0,
            r.messages@.len() == 0,
            r.max_query_depth == max_query_depth,
            r.enable_addressable_entity == enable_addressable_entity,
    {
        TrackingCopy {
            cache: TrackingCopyCache::new(DEFAULT_MAX_CACHE_SIZE),
            effects: Vec::new(),
            max_query_depth,
            messages: Vec::new(),
            enable_addressable_entity,
        }
    }

    /// Whether addressable entities are enabled.
    pub fn enable_addressable_entity(&self) -> (r: bool)
        ensures
            r == self.enable_addressable_entity,
    {
        self.enable_addressable_entity
    }

    /// The value of a key as far as the cache knows it (a cached read
    /// becomes the most recently used); `None` means the state is to be
    /// read, and reported with [`TrackingCopy::got_from_state`].
    pub fn get_cached(&mut self, key: &[u8]) -> (r: Option<Vec<u8>>)
        requires
            old(self).cache.wf(),
        ensures
            final(self).cache.wf(),
            final(self).effects == old(self).effects,
            final(self).messages == old(self).messages,
            final(self).cache.max() == old(self).cache.max(),
            final(self).cache.counted() == old(self).cache.counted(),
            final(self).cache.muts() == old(self).cache.muts(),
            final(self).cache.prunes() == old(self).cache.prunes(),
            match r {
                Some(v) => old(self).cache.lookup(key@) == Some(v@),
                None => old(self).cache.lookup(key@) is None,
            },
            final(self).cache.reads() == if old(self).cache.prunes().contains(key@) || old(self).cache.muts().contains_key(
                key@,
            ) {
                old(self).cache.reads()
            } else {
                refreshed(old(self).cache.reads(), key@)
            },
    {
        self.cache.get(key)
    }

    /// What reading the state gave for a key the cache did not know (the
    /// value with the size the meter measures for it, or the store's error):
    /// a value found is cached as read.
    pub fn got_from_state(&mut self, key: Vec<u8>, read: Result<Option<(Vec<u8>, usize)>, String>) -> (r: Result<
        Option<Vec<u8>>,
        TrackingCopyError,
    >)
        requires
            old(self).cache.wf(),
            read matches Ok(Some((_, size))) ==> old(self).cache.counted() + size <= usize::MAX,
        ensures
            final(self).cache.wf(),
            final(self).effects == old(self).effects,
            final(self).messages == old(self).messages,
            final(self).cache.max() == old(self).cache.max(),
            final(self).cache.muts() == old(self).cache.muts(),
            final(self).cache.prunes() == old(self).cache.prunes(),
            match read {
                Ok(Some((v, size))) => {
                    &&& r matches Ok(Some(w)) && w@ == v@
                    &&& (final(self).cache.reads(), final(self).cache.counted() as int) == evict(
                        with_read(old(self).cache.reads(), key@, v@, size),
                        sizes(with_read(old(self).cache.reads(), key@, v@, size)),
                        old(self).cache.max() as int,
                    )
                },
                Ok(None) => r == Ok::<Option<Vec<u8>>, TrackingCopyError>(None) && final(self).cache.reads()
                    == old(self).cache.reads() && final(self).cache.counted() == old(self).cache.counted(),
                Err(e) => (r matches Err(TrackingCopyError::Storage(GlobalStateError::Other(m))) && m@ == e@)
                    && final(self).cache.reads() == old(self).cache.reads() && final(self).cache.counted()
                    == old(self).cache.counted(),
            },
    {
        match read {
            Ok(Some((value, size))) => {
                self.cache.insert_read(key, value.clone(), size);
                Ok(Some(value))
            },
            Ok(None) => Ok(None),
            Err(e) => Err(TrackingCopyError::Storage(GlobalStateError::Other(e))),
        }
    }

    /// Records that a key was read and found.
    pub fn record_read(&mut self, key: Vec<u8>)
        ensures
            final(self).cache == old(self).cache,
            final(self).messages == old(self).messages,
            effect_views(final(self).effects@) == effect_views(old(self).effects@).push(TransformView::Identity(key@)),
    {
        self.effects.push(Transform { key, kind: TransformKind::Identity });
        proof {
            assert(effect_views(self.effects@) =~= effect_views(old(self).effects@).push(TransformView::Identity(key@)));
        }
    }

    /// Writes a value under a key: only the cache holds it, and the write is
    /// recorded.
    pub fn write(&mut self, key: Vec<u8>, value: Vec<u8>)
        requires
            old(self).cache.wf(),
        ensures
            final(self).cache.wf(),
            final(self).cache.max() == old(self).cache.max(),
            final(self).cache.counted() == old(self).cache.counted(),
            final(self).cache.reads() == old(self).cache.reads(),
            final(self).cache.muts() == old(self).cache.muts().insert(key@, value@),
            final(self).cache.prunes() == old(self).cache.prunes().remove(key@),
            final(self).messages == old(self).messages,
            effect_views(final(self).effects@) == effect_views(old(self).effects@).push(
                TransformView::Write(key@, value@),
            ),
    {
        self.cache.insert_write(key.clone(), value.clone());
        self.effects.push(Transform { key, kind: TransformKind::Write(value) });
        proof {
            assert(effect_views(self.effects@) =~= effect_views(old(self).effects@).push(
                transform_view(self.effects@.last()),
            ));
        }
    }

    /// Prunes a key (given as `key`, normalized as `normalized`): reads
    /// through the cache find nothing under it, and the prune is recorded.
    pub fn prune(&mut self, normalized: Vec<u8>, key: Vec<u8>)
        requires
            old(self).cache.wf(),
        ensures
            final(self).cache.wf(),
            final(self).cache.max() == old(self).cache.max(),
            final(self).cache.counted() == old(self).cache.counted(),
            final(self).cache.reads() == old(self).cache.reads(),
            final(self).cache.muts() == old(self).cache.muts(),
            final(self).cache.prunes() == old(self).cache.prunes().insert(normalized@),
            final(self).messages == old(self).messages,
            effect_views(final(self).effects@) == effect_views(old(self).effects@).push(
                TransformView::Prune(normalized@, key@),
            ),
    {
        self.cache.insert_prune(normalized.clone());
        self.effects.push(Transform { key: normalized, kind: TransformKind::Prune(key) });
        proof {
            assert(effect_views(self.effects@) =~= effect_views(old(self).effects@).push(
                transform_view(self.effects@.last()),
            ));
        }
    }

    /// Replaces the effects, the cache and the messages with those of a
    /// fork whose changes are accepted.
    pub fn apply_changes(&mut self, effects: Vec<Transform>, cache: TrackingCopyCache, messages: Vec<Vec<u8>>)
        ensures
            final(self).effects == effects,
            final(self).cache == cache,
            final(self).messages == messages,
            final(self).max_query_depth == old(self).max_query_depth,
            final(self).enable_addressable_entity == old(self).enable_addressable_entity,
    {
        self.effects = effects;
        self.cache = cache;
        self.messages = messages;
    }
}

impl TrackingCopy {
    /// Records an emitted message: the message, the summary of its topic and
    /// the block's message count are written, in that order, and the
    /// message is kept.
    pub fn emit_message(
        &mut self,
        message_topic_key: Vec<u8>,
        message_topic_summary: Vec<u8>,
        message_key: Vec<u8>,
        message_value: Vec<u8>,
        block_message_count_key: Vec<u8>,
        block_message_count_value: Vec<u8>,
        message: Vec<u8>,
    )
        requires
            old(self).cache.wf(),
        ensures
            final(self).cache.wf(),
            final(self).cache.reads() == old(self).cache.reads(),
            final(self).cache.counted() == old(self).cache.counted(),
            final(self).cache.muts() == old(self).cache.muts().insert(message_key@, message_value@).insert(
                message_topic_key@,
                message_topic_summary@,
            ).insert(block_message_count_key@, block_message_count_value@),
            final(self).cache.prunes() == old(self).cache.prunes().remove(message_key@).remove(message_topic_key@).remove(
                block_message_count_key@,
            ),
            effect_views(final(self).effects@) == effect_views(old(self).effects@).push(
                TransformView::Write(message_key@, message_value@),
            ).push(TransformView::Write(message_topic_key@, message_topic_summary@)).push(
                TransformView::Write(block_message_count_key@, block_message_count_value@),
            ),
            final(self).messages@ == old(self).messages@.push(message),
    {
        self.write(message_key, message_value);
        self.write(message_topic_key, message_topic_summary);
        self.write(block_message_count_key, block_message_count_value);
        self.messages.push(message);
    }
}

/// The keys that a listing by prefix gives: those that the state holds and
/// that were not pruned, with the keys written in the cache that start with
/// the prefix.
pub open spec fn visible_keys(
    state_keys: Set<Seq<u8>>,
    prunes: Set<Seq<u8>>,
    muts: Map<Seq<u8>, Seq<u8>>,
    prefix: Seq<u8>,
) -> Set<Seq<u8>> {
    state_keys.filter(|k: Seq<u8>| !prunes.contains(k)).union(muts.dom().filter(|k: Seq<u8>| prefix.is_prefix_of(k)))
}

/// A listing by prefix shows every key written in the cache under the
/// prefix, whatever the state holds, and never shows a pruned key that the
/// cache holds no write of.
pub proof fn law_listing_shows_writes_hides_prunes(
    state_keys: Set<Seq<u8>>,
    prunes: Set<Seq<u8>>,
    muts: Map<Seq<u8>, Seq<u8>>,
    prefix: Seq<u8>,
    key: Seq<u8>,
    value: Seq<u8>,
)
    ensures
        prefix.is_prefix_of(key) ==> visible_keys(state_keys, prunes, muts.insert(key, value), prefix).contains(key),
        prunes.contains(key) && !muts.contains_key(key) ==> !visible_keys(state_keys, prunes, muts, prefix).contains(
            key,
        ),
{
}

/// Whether no key occurs twice.
pub open spec fn distinct_keys(keys: Seq<Vec<u8>>) -> bool {
    forall|a: int, b: int| 0 <= a < b < keys.len() ==> keys[a]@ != keys[b]@
}

/// Whether the key is among the keys.
fn holds_key(keys: &Vec<Vec<u8>>, key: &[u8]) -> (r: bool)
    ensures
        r == key_seqs(keys@).contains(key@),
{
    let mut i: usize = 0;
    while i < keys.len()
        invariant
            i <= keys@.len(),
            forall|j: int| 0 <= j < i ==> keys@[j]@ != key@,
        decreases keys@.len() - i,
    {
        if crate::text::bytes_eq(keys[i].as_slice(), key) {
            assert(key_seqs(keys@)[i as int] == key@);
            return true;
        }
        i += 1;
    }
    proof {
        if key_seqs(keys@).contains(key@) {
            let j = choose|j: int| 0 <= j < key_seqs(keys@).len() && key_seqs(keys@)[j] == key@;
            assert(keys@[j]@ == key@);
        }
    }
    false
}

/// Appends the key unless it is there already.
fn push_new_key(keys: &mut Vec<Vec<u8>>, key: &Vec<u8>)
    requires
        distinct_keys(old(keys)@),
    ensures
        distinct_keys(final(keys)@),
        key_seqs(final(keys)@).to_set() == key_seqs(old(keys)@).to_set().insert(key@),
{
    let ghost before = keys@;
    if !holds_key(keys, key.as_slice()) {
        keys.push(key.clone());
        proof {
            assert(key_seqs(keys@) =~= key_seqs(before).push(key@));
            assert forall|a: int, b: int| 0 <= a < b < keys@.len() implies keys@[a]@ != keys@[b]@ by {
                if b == keys@.len() - 1 {
                    assert(key_seqs(before)[a] == keys@[a]@);
                }
            }
            assert(key_seqs(keys@).to_set() =~= key_seqs(before).to_set().insert(key@)) by {
                assert forall|x: Seq<u8>| key_seqs(keys@).to_set().contains(x) implies key_seqs(before).to_set().insert(key@).contains(x) by {
                    let j = choose|j: int| 0 <= j < key_seqs(keys@).len() && key_seqs(keys@)[j] == x;
                    if j < before.len() {
                        assert(key_seqs(before)[j] == x);
                    }
                }
                assert forall|x: Seq<u8>| key_seqs(before).to_set().insert(key@).contains(x) implies key_seqs(keys@).to_set().contains(x) by {
                    if x == key@ {
                        assert(key_seqs(keys@)[before.len() as int] == x);
                    } else {
                        let j = choose|j: int| 0 <= j < key_seqs(before).len() && key_seqs(before)[j] == x;
                        assert(key_seqs(keys@)[j] == x);
                    }
                }
            }
        }
    } else {
        proof {
            assert(key_seqs(before).to_set() =~= key_seqs(before).to_set().insert(key@));
        }
    }
}

impl TrackingCopy {
    /// The keys that start with the prefix: what reading the state's keys
    /// under the prefix gave (or the store's error), less the pruned keys,
    /// with the keys written in the cache under the prefix; each key once.
    pub fn get_keys_by_prefix(&self, prefix: &[u8], state_keys: Result<Vec<Vec<u8>>, String>) -> (r: Result<
        Vec<Vec<u8>>,
        TrackingCopyError,
    >)
        requires
            self.cache.wf(),
        ensures
            match state_keys {
                Err(e) => r matches Err(TrackingCopyError::Storage(GlobalStateError::Other(m))) && m@ == e@,
                Ok(keys) => r matches Ok(ks) && distinct_keys(ks@) && key_seqs(ks@).to_set() == visible_keys(
                    key_seqs(keys@).to_set(),
                    self.cache.prunes(),
                    self.cache.muts(),
                    prefix@,
                ),
            },
    {
        let keys = match state_keys {
            Err(e) => {
                return Err(TrackingCopyError::Storage(GlobalStateError::Other(e)));
            },
            Ok(keys) => keys,
        };
        let prunes = Ghost(self.cache.prunes());
        let mut out: Vec<Vec<u8>> = Vec::new();
        let mut i: usize = 0;
        while i < keys.len()
            invariant
                i <= keys@.len(),
                prunes@ == self.cache.prunes(),
                distinct_keys(out@),
                key_seqs(out@).to_set() == key_seqs(keys@.take(i as int)).to_set().filter(
                    |k: Seq<u8>| !prunes@.contains(k),
                ),
            decreases keys@.len() - i,
        {
            let ghost before = out@;
            proof {
                assert(key_seqs(keys@.take(i + 1)) =~= key_seqs(keys@.take(i as int)).push(keys@[i as int]@));
                key_seqs(keys@.take(i as int)).lemma_push_to_set_commute(keys@[i as int]@);
            }
            if !self.cache.is_pruned(keys[i].as_slice()) {
                push_new_key(&mut out, &keys[i]);
                proof {
                    assert(key_seqs(out@).to_set() =~= key_seqs(keys@.take(i + 1)).to_set().filter(
                        |k: Seq<u8>| !prunes@.contains(k),
                    ));
                }
            } else {
                proof {
                    assert(key_seqs(out@).to_set() =~= key_seqs(keys@.take(i + 1)).to_set().filter(
                        |k: Seq<u8>| !prunes@.contains(k),
                    ));
                }
            }
            i += 1;
        }
        assert(keys@.take(keys@.len() as int) =~= keys@);
        let ghost from_state = key_seqs(out@).to_set();
        let written = self.cache.get_muts_cached_by_byte_prefix(prefix);
        let mut j: usize = 0;
        while j < written.len()
            invariant
                j <= written@.len(),
                distinct_keys(out@),
                key_seqs(out@).to_set() == from_state.union(key_seqs(written@.take(j as int)).to_set()),
            decreases written@.len() - j,
        {
            proof {
                assert(key_seqs(written@.take(j + 1)) =~= key_seqs(written@.take(j as int)).push(written@[j as int]@));
                key_seqs(written@.take(j as int)).lemma_push_to_set_commute(written@[j as int]@);
            }
            push_new_key(&mut out, &written[j]);
            proof {
                assert(key_seqs(out@).to_set() =~= from_state.union(key_seqs(written@.take(j + 1)).to_set()));
            }
            j += 1;
        }
        assert(written@.take(written@.len() as int) =~= written@);
        proof {
            assert(key_seqs(out@).to_set() =~= visible_keys(
                key_seqs(keys@).to_set(),
                self.cache.prunes(),
                self.cache.muts(),
                prefix@,
            ));
        }
        Ok(out)
    }

    /// The keys whose tag is the given one: those that start with the tag's
    /// byte, as [`TrackingCopy::get_keys_by_prefix`] gives them.
    pub fn get_keys(&self, key_tag: u8, state_keys: Result<Vec<Vec<u8>>, String>) -> (r: Result<
        Vec<Vec<u8>>,
        TrackingCopyError,
    >)
        requires
            self.cache.wf(),
        ensures
            match state_keys {
                Err(e) => r matches Err(TrackingCopyError::Storage(GlobalStateError::Other(m))) && m@ == e@,
                Ok(keys) => r matches Ok(ks) && distinct_keys(ks@) && key_seqs(ks@).to_set() == visible_keys(
                    key_seqs(keys@).to_set(),
                    self.cache.prunes(),
                    self.cache.muts(),
                    seq![key_tag],
                ),
            },
    {
        let prefix: Vec<u8> = vec![key_tag];
        assert(prefix@ =~= seq![key_tag]);
        self.get_keys_by_prefix(prefix.as_slice(), state_keys)
    }
}

/// What a proof of a read from global state is checked by: the key and
/// the value it proves, as bytes (keys and values are the same when their
/// bytes are).
#[derive(Clone, Debug, PartialEq, Eq)]
pub struct ProvenRead {
    pub key: Vec<u8>,
    pub value: Vec<u8>,
}

/// Why a proof of a query does not hold.
#[derive(Clone, Debug, PartialEq, Eq)]
pub enum ValidationError {
    /// The proofs are not as many as expected.
    PathLengthDifferentThanProofLessOne,
    /// A proof is of another key than expected.
    UnexpectedKey,
    /// The last proof is of another value than expected.
    UnexpectedValue,
    /// The proofs are not of the given state.
    InvalidProofHash,
    /// A proof could not be serialized to compute its state hash, with the
    /// reason.
    BytesRepr(String),
}

/// Whether every proof is of the key at the same place in the trace.
pub open spec fn keys_match(proofs: Seq<ProvenRead>, trace: Seq<Vec<u8>>) -> bool {
    forall|i: int| 0 <= i < proofs.len() ==> #[trigger] proofs[i].key@ == trace[i]@
}

/// The outcome of checking the proofs of a query against the state hash:
/// as many proofs as keys in the expected trace, each of its key, the last
/// of the expected value, and the first computing to the state hash
/// (`first_proof_hash` is the state hash that the first proof computes to,
/// or why it could not be computed).
pub open spec fn merkle_proof_outcome(
    hash: Hash32,
    proofs: Seq<ProvenRead>,
    trace: Seq<Vec<u8>>,
    expected_value: Seq<u8>,
    first_proof_hash: Result<Hash32, String>,
) -> Result<(), ValidationError> {
    if proofs.len() != trace.len() {
        Err(ValidationError::PathLengthDifferentThanProofLessOne)
    } else if !keys_match(proofs, trace) {
        Err(ValidationError::UnexpectedKey)
    } else if proofs.last().value@ != expected_value {
        Err(ValidationError::UnexpectedValue)
    } else {
        match first_proof_hash {
            Err(e) => Err(ValidationError::BytesRepr(e)),
            Ok(h) => if h != hash {
                Err(ValidationError::InvalidProofHash)
            } else {
                Ok(())
            },
        }
    }
}

/// Validates the proofs of a query by its trace of keys: see
/// [`merkle_proof_outcome`]. An empty trace with no proofs has no last
/// proof to check the value of.
pub fn validate_query_merkle_proof(
    hash: &Hash32,
    proofs: &Vec<ProvenRead>,
    expected_key_trace: &Vec<Vec<u8>>,
    expected_value: &Vec<u8>,
    first_proof_hash: Result<Hash32, String>,
) -> (r: Result<(), ValidationError>)
    requires
        proofs@.len() > 0 || expected_key_trace@.len() > 0,
    ensures
        r == merkle_proof_outcome(*hash, proofs@, expected_key_trace@, expected_value@, first_proof_hash),
{
    let expected_len = expected_key_trace.len();
    if proofs.len() != expected_len {
        return Err(ValidationError::PathLengthDifferentThanProofLessOne);
    }
    let mut i: usize = 0;
    while i < expected_len
        invariant
            expected_len == proofs@.len(),
            expected_len == expected_key_trace@.len(),
            i <= expected_len,
            forall|j: int| 0 <= j < i ==> #[trigger] proofs@[j].key@ == expected_key_trace@[j]@,
        decreases expected_len - i,
    {
        if !crate::text::bytes_eq(proofs[i].key.as_slice(), expected_key_trace[i].as_slice()) {
            return Err(ValidationError::UnexpectedKey);
        }
        i += 1;
    }
    if !crate::text::bytes_eq(proofs[expected_len - 1].value.as_slice(), expected_value.as_slice()) {
        return Err(ValidationError::UnexpectedValue);
    }
    match first_proof_hash {
        Err(e) => Err(ValidationError::BytesRepr(e)),
        Ok(h) => {
            if h.same_as(hash) {
                Ok(())
            } else {
                Err(ValidationError::InvalidProofHash)
            }
        },
    }
}

} // verus!
