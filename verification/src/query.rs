//! Querying global state by a path of names: from a base key, each name is
//! looked up among the named keys of the value reached so far, until the
//! path is used up. The query stops at a depth limit and when it comes back
//! to a key it has visited.
//!
//! Reading a key (with its proof), unwrapping dictionary values and
//! computing the key of an entity's named key are outside work: the query
//! asks for them step by step, and the caller reports what came of them.
//! Keys arrive normalized, with their bytes (by which they are compared)
//! and their text for messages.

use vstd::prelude::*;

use crate::hash32::Hash32;
use crate::tracking_copy::{TrackingCopy, TrackingCopyQueryResult};

verus! {

/// A key of global state, normalized.
#[derive(Clone, Debug, PartialEq, Eq)]
pub struct QueryKey {
    /// The key's bytes: keys are the same when their bytes are.
    pub bytes: Vec<u8>,
    /// How the key reads in messages.
    pub text: String,
    /// Whether it is the key of a named key.
    pub is_named_key: bool,
    /// The entity, for the key of an addressable entity.
    pub entity_addr: Option<Hash32>,
}

/// A kind of stored value that a query cannot go through.
#[derive(Copy, Clone, Debug, PartialEq, Eq, Structural)]
pub enum DeadEnd {
    ContractWasm,
    ContractPackage,
    SmartContract,
    ByteCode,
    Transfer,
    DeployInfo,
    EraInfo,
    Bid,
    BidKind,
    Withdraw,
    Unbonding,
    MessageTopic,
    Message,
    EntryPoint,
    Prepayment,
    RawBytes,
}

/// Why a query stops at a value of this kind.
pub open spec fn dead_end_message(kind: DeadEnd) -> Seq<char> {
    match kind {
        DeadEnd::ContractWasm => "ContractWasm value found."@,
        DeadEnd::ContractPackage => "ContractPackage value found."@,
        DeadEnd::SmartContract => "Package value found."@,
        DeadEnd::ByteCode => "ByteCode value found."@,
        DeadEnd::Transfer => "Legacy Transfer value found."@,
        DeadEnd::DeployInfo => "DeployInfo value found."@,
        DeadEnd::EraInfo => "EraInfo value found."@,
        DeadEnd::Bid => "Bid value found."@,
        DeadEnd::BidKind => "BidKind value found."@,
        DeadEnd::Withdraw => "WithdrawPurses value found."@,
        DeadEnd::Unbonding => "Unbonding value found."@,
        DeadEnd::MessageTopic => "MessageTopic value found."@,
        DeadEnd::Message => "Message value found."@,
        DeadEnd::EntryPoint => "EntryPoint value found."@,
        DeadEnd::Prepayment => "Prepayment value found."@,
        DeadEnd::RawBytes => "RawBytes value found."@,
    }
}

/// Why a query stops at a value of this kind.
fn dead_end_text(kind: DeadEnd) -> (r: &'static str)
    ensures
        r@ == dead_end_message(kind),
{
    match kind {
        DeadEnd::ContractWasm => "ContractWasm value found.",
        DeadEnd::ContractPackage => "ContractPackage value found.",
        DeadEnd::SmartContract => "Package value found.",
        DeadEnd::ByteCode => "ByteCode value found.",
        DeadEnd::Transfer => "Legacy Transfer value found.",
        DeadEnd::DeployInfo => "DeployInfo value found.",
        DeadEnd::EraInfo => "EraInfo value found.",
        DeadEnd::Bid => "Bid value found.",
        DeadEnd::BidKind => "BidKind value found.",
        DeadEnd::Withdraw => "WithdrawPurses value found.",
        DeadEnd::Unbonding => "Unbonding value found.",
        DeadEnd::MessageTopic => "MessageTopic value found.",
        DeadEnd::Message => "Message value found.",
        DeadEnd::EntryPoint => "EntryPoint value found.",
        DeadEnd::Prepayment => "Prepayment value found.",
        DeadEnd::RawBytes => "RawBytes value found.",
    }
}

/// What a query reads of a stored value.
#[derive(Clone, Debug, PartialEq, Eq)]
pub enum QueryValue {
    /// An account, with its named keys.
    Account { named_keys: Vec<(String, QueryKey)> },
    /// A contract of the legacy engine, with its named keys.
    Contract { named_keys: Vec<(String, QueryKey)> },
    /// A named key: its name and its key, each `None` if it fails to decode.
    NamedKey { name: Option<String>, key: Option<QueryKey> },
    /// A value of type key, `None` if it fails to decode.
    Key(Option<QueryKey>),
    /// A value of another type, by its text.
    OtherValue(String),
    /// An addressable entity.
    AddressableEntity,
    /// A value the query cannot go through.
    DeadEnd(DeadEnd),
}

/// What reading the current key gave: the value to hand out (after
/// dictionary values are unwrapped, which may fail with a message), what
/// the query reads of the value as stored, and the proof of the read.
pub struct ReadOutcome<V> {
    pub value: Result<V, String>,
    pub view: QueryValue,
    pub proof: Vec<u8>,
}

/// What the query asks for next.
pub enum QueryStep<V> {
    /// Read the current key (with its proof), and report with
    /// [`Query::after_read`].
    ReadCurrentKey,
    /// Compute the key of the entity's named key with this name, and report
    /// with [`Query::after_named_key`].
    NamedKeyOf { entity: Hash32, name: String },
    /// The query is over.
    Done(TrackingCopyQueryResult<V>),
}

/// A query under way.
pub struct Query {
    /// How the base key reads in messages.
    pub base_text: String,
    /// The bytes of the keys visited so far.
    pub visited_keys: Vec<Vec<u8>>,
    /// The key being processed.
    pub current_key: QueryKey,
    /// The names of the path; those before `next` have been followed.
    pub names: Vec<String>,
    pub next: usize,
    /// How many keys were navigated to.
    pub depth: u64,
    /// The proofs of the reads so far.
    pub proofs: Vec<Vec<u8>>,
}

/// The path a query has followed: the base key, then each followed name
/// after a slash.
pub open spec fn path_text(base: Seq<char>, names: Seq<String>, n: int) -> Seq<char>
    decreases n,
{
    if n <= 0 {
        base
    } else {
        path_text(base, names, n - 1) + "/"@ + names[n - 1]@
    }
}

/// Whether `bytes` is among the visited keys.
pub open spec fn visited(keys: Seq<Vec<u8>>, bytes: Seq<u8>) -> bool {
    exists|i: int| 0 <= i < keys.len() && keys[i]@ == bytes
}

/// Whether `q` is a query that has just started from the base key along
/// the path.
pub open spec fn fresh_query(q: Query, base_key: QueryKey, path: Seq<String>) -> bool {
    &&& q.wf()
    &&& q.base_text@ == base_key.text@
    &&& q.current_key == base_key
    &&& q.names@ == path
    &&& q.next == 0
    &&& q.depth == 0
    &&& q.visited_keys@.len() == 0
    &&& q.proofs@.len() == 0
}

impl Query {
    /// No more names are followed than the path has.
    pub open spec fn wf(&self) -> bool {
        self.next <= self.names@.len()
    }

    /// The path followed so far.
    pub open spec fn path(&self) -> Seq<char> {
        path_text(self.base_text@, self.names@, self.next as int)
    }

    /// Whether `r` is the result of a query that found nothing, with the
    /// reason.
    pub open spec fn not_found<V>(&self, r: TrackingCopyQueryResult<V>, prefix: Seq<char>) -> bool {
        r matches TrackingCopyQueryResult::ValueNotFound(m) && m@ == prefix + " at path: "@ + self.path()
    }

    /// A query from the base key along the path.
    pub fn new(base_key: QueryKey, path: Vec<String>) -> (r: Query)
        ensures
            fresh_query(r, base_key, path@),
            r.wf(),
            r.base_text@ == base_key.text@,
            r.current_key == base_key,
            r.names@ == path@,
            r.next == 0,
            r.depth == 0,
            r.visited_keys@.len() == 0,
            r.proofs@.len() == 0,
    {
        let base_text = base_key.text.clone();
        Query {
            base_text,
            visited_keys: Vec::new(),
            current_key: base_key,
            names: path,
            next: 0,
            depth: 0,
            proofs: Vec::new(),
        }
    }

    /// The path followed so far.
    fn current_path(&self) -> (r: String)
        requires
            self.wf(),
        ensures
            r@ == self.path(),
    {
        let mut path = self.base_text.clone();
        let mut i: usize = 0;
        while i < self.next
            invariant
                i <= self.next <= self.names@.len(),
                path@ == path_text(self.base_text@, self.names@, i as int),
            decreases self.next - i,
        {
            path.append("/");
            path.append(self.names[i].as_str());
            i += 1;
        }
        path
    }

    /// The result of a query that found nothing, with the reason.
    fn into_not_found_result<V>(&self, prefix: &str) -> (r: TrackingCopyQueryResult<V>)
        requires
            self.wf(),
        ensures
            self.not_found(r, prefix@),
    {
        let mut msg = String::from_str(prefix);
        msg.append(" at path: ");
        let path = self.current_path();
        msg.append(path.as_str());
        TrackingCopyQueryResult::ValueNotFound(msg)
    }

    /// Whether the key's bytes are among the visited keys.
    fn is_visited(&self, bytes: &Vec<u8>) -> (r: bool)
        ensures
            r == visited(self.visited_keys@, bytes@),
    {
        let mut i: usize = 0;
        while i < self.visited_keys.len()
            invariant
                i <= self.visited_keys@.len(),
                forall|k: int| 0 <= k < i ==> self.visited_keys@[k]@ != bytes@,
            decreases self.visited_keys@.len() - i,
        {
            if crate::text::bytes_eq(self.visited_keys[i].as_slice(), bytes.as_slice()) {
                return true;
            }
            i += 1;
        }
        false
    }
}

/// The views of the visited keys.
pub open spec fn key_views(keys: Seq<Vec<u8>>) -> Seq<Seq<u8>> {
    keys.map_values(|k: Vec<u8>| k@)
}

/// Whether two queries agree but for their proofs.
pub open spec fn same_but_proofs(a: Query, b: Query) -> bool {
    &&& a.base_text == b.base_text
    &&& a.visited_keys == b.visited_keys
    &&& a.current_key == b.current_key
    &&& a.names == b.names
    &&& a.next == b.next
    &&& a.depth == b.depth
}

/// Whether `r` and `q2` are what the head of the query's loop makes of
/// `q` (its proofs aside): past the depth limit the query stops; at a key
/// it visited before it stops on the circle; otherwise it records the key
/// as visited and reads it.
pub open spec fn head_result<V>(q: Query, max_depth: u64, r: QueryStep<V>, q2: Query) -> bool {
    if q.depth >= max_depth {
        &&& r matches QueryStep::Done(TrackingCopyQueryResult::DepthLimit { depth }) && depth == q.depth
        &&& same_but_proofs(q2, q)
    } else if visited(q.visited_keys@, q.current_key.bytes@) {
        &&& r matches QueryStep::Done(TrackingCopyQueryResult::CircularReference(m)) && m@ == q.current_key.text@
            + " has formed a circular reference at path: "@ + q.path()
        &&& same_but_proofs(q2, q)
    } else {
        &&& r is ReadCurrentKey
        &&& q2.base_text == q.base_text
        &&& q2.current_key == q.current_key
        &&& q2.names == q.names
        &&& q2.next == q.next
        &&& q2.depth == q.depth
        &&& key_views(q2.visited_keys@) == key_views(q.visited_keys@).push(q.current_key.bytes@)
    }
}

/// Whether the stored value needs the next name of the path.
pub open spec fn needs_name(view: QueryValue) -> bool {
    view is Account || view is Contract || view is AddressableEntity
}

/// Whether `r` stops the query with the result that nothing was found at
/// the path of `q`, with the reason.
pub open spec fn stops_not_found<V>(q: Query, r: QueryStep<V>, prefix: Seq<char>) -> bool {
    r matches QueryStep::Done(res) && q.not_found(res, prefix)
}

impl Query {
    /// The head of the query's loop: stops at the depth limit or on a
    /// circle, and otherwise asks for the current key to be read.
    fn head<V>(&mut self, max_depth: u64) -> (r: QueryStep<V>)
        requires
            old(self).wf(),
        ensures
            final(self).wf(),
            final(self).proofs == old(self).proofs,
            head_result(*old(self), max_depth, r, *final(self)),
    {
        if self.depth >= max_depth {
            return QueryStep::Done(TrackingCopyQueryResult::DepthLimit { depth: self.depth });
        }
        if self.is_visited(&self.current_key.bytes) {
            let mut msg = self.current_key.text.clone();
            msg.append(" has formed a circular reference at path: ");
            let path = self.current_path();
            msg.append(path.as_str());
            return QueryStep::Done(TrackingCopyQueryResult::CircularReference(msg));
        }
        let bytes = self.current_key.bytes.clone();
        self.visited_keys.push(bytes);
        proof {
            assert(key_views(self.visited_keys@) =~= key_views(old(self).visited_keys@).push(
                old(self).current_key.bytes@,
            ));
        }
        QueryStep::ReadCurrentKey
    }

    /// Starts the query.
    pub fn begin<V>(&mut self, max_depth: u64) -> (r: QueryStep<V>)
        requires
            old(self).wf(),
        ensures
            final(self).wf(),
            final(self).proofs == old(self).proofs,
            head_result(*old(self), max_depth, r, *final(self)),
    {
        self.head(max_depth)
    }

    /// Goes on to a key found on the way, one level deeper.
    fn navigate<V>(&mut self, key: QueryKey, max_depth: u64) -> (r: QueryStep<V>)
        requires
            old(self).wf(),
            old(self).depth < max_depth,
        ensures
            final(self).wf(),
            final(self).proofs == old(self).proofs,
            head_result(
                Query { current_key: key, depth: (old(self).depth + 1) as u64, ..*old(self) },
                max_depth,
                r,
                *final(self),
            ),
    {
        self.current_key = key;
        self.depth = self.depth + 1;
        self.head(max_depth)
    }

    /// Takes the next name of the path.
    fn next_name(&mut self) -> (r: String)
        requires
            old(self).wf(),
            old(self).next < old(self).names@.len(),
        ensures
            final(self).wf(),
            *final(self) == (Query { next: (old(self).next + 1) as usize, ..*old(self) }),
            r@ == old(self).names@[old(self).next as int]@,
    {
        let name = self.names[self.next].clone();
        let count = self.names.len();
        assert(self.next < count);
        self.next = self.next + 1;
        name
    }
}

/// The index of the first named key with the name, from `from` on, or the
/// number of named keys if there is none.
pub open spec fn name_index(named_keys: Seq<(String, QueryKey)>, name: Seq<char>, from: int) -> int
    decreases named_keys.len() - from,
{
    if from >= named_keys.len() {
        named_keys.len() as int
    } else if named_keys[from].0@ == name {
        from
    } else {
        name_index(named_keys, name, from + 1)
    }
}

/// The index found holds the name.
pub proof fn lemma_name_index(named_keys: Seq<(String, QueryKey)>, name: Seq<char>, from: int)
    requires
        0 <= from <= named_keys.len(),
    ensures
        from <= name_index(named_keys, name, from) <= named_keys.len(),
        name_index(named_keys, name, from) < named_keys.len() ==> named_keys[name_index(named_keys, name, from)].0@
            == name,
    decreases named_keys.len() - from,
{
    if from < named_keys.len() && named_keys[from].0@ != name {
        lemma_name_index(named_keys, name, from + 1);
    }
}

/// Looks up the first named key with the name.
fn find_name(named_keys: &Vec<(String, QueryKey)>, name: &String) -> (r: usize)
    ensures
        r == name_index(named_keys@, name@, 0),
{
    let mut i: usize = 0;
    while i < named_keys.len()
        invariant
            i <= named_keys@.len(),
            name_index(named_keys@, name@, 0) == name_index(named_keys@, name@, i as int),
        decreases named_keys@.len() - i,
    {
        if crate::text::str_eq(named_keys[i].0.as_str(), name.as_str()) {
            return i;
        }
        i += 1;
    }
    i
}

/// Whether the query would take a name where none is left: the query
/// cannot go on there.
pub open spec fn read_takes_missing_name<V>(q: Query, read: Option<ReadOutcome<V>>) -> bool {
    read matches Some(o) && o.value is Ok && needs_name(o.view) && q.next == q.names@.len()
        && q.current_key.is_named_key
}

/// Whether the query ends successfully right after the read: no name is
/// left and the key is not a named key's, or a named key is reached with an
/// empty path.
pub open spec fn read_succeeds(q: Query, view: QueryValue) -> bool {
    (q.next == q.names@.len() && !q.current_key.is_named_key) || (view is NamedKey && q.next == 0
        && q.names@.len() == 0)
}

/// Whether `r` and `q2` are what the query makes of the value it read at
/// its current key, where the query is `q` (its proofs aside).
pub open spec fn view_result<V>(q: Query, max_depth: u64, view: QueryValue, r: QueryStep<V>, q2: Query) -> bool {
    let q1 = Query { next: (q.next + 1) as usize, ..q };
    match view {
        QueryValue::Account { named_keys } => {
            let i = name_index(named_keys@, q.names@[q.next as int]@, 0);
            if i < named_keys@.len() {
                head_result(
                    Query { current_key: named_keys@[i].1, depth: (q.depth + 1) as u64, ..q1 },
                    max_depth,
                    r,
                    q2,
                )
            } else {
                stops_not_found(q1, r, "Name "@ + q.names@[q.next as int]@ + " not found in Account"@)
                    && same_but_proofs(q2, q1)
            }
        },
        QueryValue::Contract { named_keys } => {
            let i = name_index(named_keys@, q.names@[q.next as int]@, 0);
            if i < named_keys@.len() {
                head_result(
                    Query { current_key: named_keys@[i].1, depth: (q.depth + 1) as u64, ..q1 },
                    max_depth,
                    r,
                    q2,
                )
            } else {
                stops_not_found(q1, r, "Name "@ + q.names@[q.next as int]@ + " not found in Contract"@)
                    && same_but_proofs(q2, q1)
            }
        },
        QueryValue::NamedKey { name, key } => if q.next == 0 {
            stops_not_found(q, r, "No visited names"@) && same_but_proofs(q2, q)
        } else {
            match name {
                None => stops_not_found(q, r, "Failed to parse CLValue as String"@) && same_but_proofs(q2, q),
                Some(actual) => if actual@ != q.names@[q.next - 1]@ {
                    stops_not_found(q, r, "Queried and retrieved names do not match"@) && same_but_proofs(q2, q)
                } else {
                    match key {
                        Some(k) => head_result(
                            Query { current_key: k, depth: (q.depth + 1) as u64, ..q },
                            max_depth,
                            r,
                            q2,
                        ),
                        None => stops_not_found(q, r, "Failed to parse CLValue as Key"@) && same_but_proofs(q2, q),
                    }
                },
            }
        },
        QueryValue::Key(Some(k)) => head_result(
            Query { current_key: k, depth: (q.depth + 1) as u64, ..q },
            max_depth,
            r,
            q2,
        ),
        QueryValue::Key(None) => stops_not_found(q, r, "Failed to parse CLValue as Key"@) && same_but_proofs(q2, q),
        QueryValue::OtherValue(text) => stops_not_found(
            q,
            r,
            "Query cannot continue as "@ + text@ + " is not an account, contract nor key to such.  Value found"@,
        ) && same_but_proofs(q2, q),
        QueryValue::AddressableEntity => match q.current_key.entity_addr {
            Some(a) => (r matches QueryStep::NamedKeyOf { entity, name } && entity == a && name@ == q.names@[q.next as int]@)
                && same_but_proofs(q2, q1),
            None => stops_not_found(q1, r, "Invalid base key"@) && same_but_proofs(q2, q1),
        },
        QueryValue::DeadEnd(kind) => stops_not_found(q, r, dead_end_message(kind)) && same_but_proofs(q2, q),
    }
}

impl Query {
    /// Goes on with the value read at the current key: the query fails if
    /// nothing is stored there or a dictionary value cannot be unwrapped;
    /// it succeeds once the path is used up; otherwise it follows the next
    /// name through the value.
    pub fn after_read<V>(&mut self, max_depth: u64, read: Option<ReadOutcome<V>>) -> (r: QueryStep<V>)
        requires
            old(self).wf(),
            old(self).depth < max_depth,
            !read_takes_missing_name(*old(self), read),
        ensures
            final(self).wf(),
            match read {
                None => stops_not_found(*old(self), r, "Failed to find base key"@) && *final(self) == *old(self),
                Some(o) => match o.value {
                    Err(e) => stops_not_found(*old(self), r, "Failed to retrieve dictionary value: "@ + e@)
                        && *final(self) == *old(self),
                    Ok(v) => if read_succeeds(*old(self), o.view) {
                        r matches QueryStep::Done(TrackingCopyQueryResult::Success { value, proofs }) && value == v
                            && proofs@ == old(self).proofs@.push(o.proof)
                    } else {
                        &&& final(self).proofs@ == old(self).proofs@.push(o.proof)
                        &&& view_result(*old(self), max_depth, o.view, r, *final(self))
                    },
                },
            },
    {
        let o = match read {
            None => {
                return QueryStep::Done(self.into_not_found_result("Failed to find base key"));
            },
            Some(o) => o,
        };
        let ReadOutcome { value, view, proof } = o;
        let value = match value {
            Err(e) => {
                let mut prefix = String::from_str("Failed to retrieve dictionary value: ");
                prefix.append(e.as_str());
                return QueryStep::Done(self.into_not_found_result(prefix.as_str()));
            },
            Ok(v) => v,
        };
        self.proofs.push(proof);
        if self.next == self.names.len() && !self.current_key.is_named_key {
            let mut proofs: Vec<Vec<u8>> = Vec::new();
            std::mem::swap(&mut proofs, &mut self.proofs);
            return QueryStep::Done(TrackingCopyQueryResult::Success { value, proofs });
        }
        match view {
            QueryValue::Account { named_keys } => self.follow_named_keys(max_depth, named_keys, " not found in Account"),
            QueryValue::Contract { named_keys } => self.follow_named_keys(max_depth, named_keys, " not found in Contract"),
            QueryValue::NamedKey { name, key } => {
                if self.next == 0 {
                    if self.names.len() == 0 {
                        let mut proofs: Vec<Vec<u8>> = Vec::new();
                        std::mem::swap(&mut proofs, &mut self.proofs);
                        return QueryStep::Done(TrackingCopyQueryResult::Success { value, proofs });
                    }
                    return QueryStep::Done(self.into_not_found_result("No visited names"));
                }
                let actual = match name {
                    None => {
                        return QueryStep::Done(self.into_not_found_result("Failed to parse CLValue as String"));
                    },
                    Some(actual) => actual,
                };
                if !crate::text::str_eq(actual.as_str(), self.names[self.next - 1].as_str()) {
                    return QueryStep::Done(self.into_not_found_result("Queried and retrieved names do not match"));
                }
                match key {
                    Some(k) => self.navigate(k, max_depth),
                    None => QueryStep::Done(self.into_not_found_result("Failed to parse CLValue as Key")),
                }
            },
            QueryValue::Key(Some(k)) => self.navigate(k, max_depth),
            QueryValue::Key(None) => QueryStep::Done(self.into_not_found_result("Failed to parse CLValue as Key")),
            QueryValue::OtherValue(text) => {
                let mut prefix = String::from_str("Query cannot continue as ");
                prefix.append(text.as_str());
                prefix.append(" is not an account, contract nor key to such.  Value found");
                QueryStep::Done(self.into_not_found_result(prefix.as_str()))
            },
            QueryValue::AddressableEntity => {
                let name = self.next_name();
                match self.current_key.entity_addr {
                    Some(entity) => QueryStep::NamedKeyOf { entity, name },
                    None => QueryStep::Done(self.into_not_found_result("Invalid base key")),
                }
            },
            QueryValue::DeadEnd(kind) => QueryStep::Done(self.into_not_found_result(dead_end_text(kind))),
        }
    }

    /// Follows the next name through the named keys of an account or a
    /// contract (`missing` ends the message when the name is not there).
    fn follow_named_keys<V>(&mut self, max_depth: u64, named_keys: Vec<(String, QueryKey)>, missing: &str) -> (r:
        QueryStep<V>)
        requires
            old(self).wf(),
            old(self).depth < max_depth,
            old(self).next < old(self).names@.len(),
        ensures
            final(self).wf(),
            final(self).proofs == old(self).proofs,
            ({
                let q1 = Query { next: (old(self).next + 1) as usize, ..*old(self) };
                let name = old(self).names@[old(self).next as int]@;
                let i = name_index(named_keys@, name, 0);
                if i < named_keys@.len() {
                    head_result(
                        Query { current_key: named_keys@[i].1, depth: (old(self).depth + 1) as u64, ..q1 },
                        max_depth,
                        r,
                        *final(self),
                    )
                } else {
                    stops_not_found(q1, r, "Name "@ + name + missing@) && same_but_proofs(*final(self), q1)
                }
            }),
    {
        let name = self.next_name();
        let i = find_name(&named_keys, &name);
        proof {
            lemma_name_index(named_keys@, name@, 0);
        }
        if i < named_keys.len() {
            let mut named_keys = named_keys;
            let (_, key) = named_keys.remove(i);
            self.navigate(key, max_depth)
        } else {
            let mut prefix = String::from_str("Name ");
            prefix.append(name.as_str());
            prefix.append(missing);
            QueryStep::Done(self.into_not_found_result(prefix.as_str()))
        }
    }

    /// Goes on with the key of the entity's named key, or stops with the
    /// reason it could not be computed. The depth stays.
    pub fn after_named_key<V>(&mut self, max_depth: u64, named_key: Result<QueryKey, String>) -> (r: QueryStep<V>)
        requires
            old(self).wf(),
        ensures
            final(self).wf(),
            final(self).proofs == old(self).proofs,
            match named_key {
                Ok(k) => head_result(
                    if k.is_named_key {
                        Query { current_key: k, ..*old(self) }
                    } else {
                        *old(self)
                    },
                    max_depth,
                    r,
                    *final(self),
                ),
                Err(e) => stops_not_found(*old(self), r, e@) && *final(self) == *old(self),
            },
    {
        match named_key {
            Ok(k) => {
                if k.is_named_key {
                    self.current_key = k;
                }
                self.head(max_depth)
            },
            Err(e) => QueryStep::Done(self.into_not_found_result(e.as_str())),
        }
    }
}

/// A query reads a key only below the depth limit and only if it has not
/// read it before, and from then on counts it as read: so it comes to an
/// end, on a result, on the depth limit or on a circle.
pub proof fn law_query_reads_each_key_once<V>(q: Query, max_depth: u64, r: QueryStep<V>, q2: Query)
    requires
        head_result(q, max_depth, r, q2),
        r is ReadCurrentKey,
    ensures
        q.depth < max_depth,
        !visited(q.visited_keys@, q.current_key.bytes@),
        visited(q2.visited_keys@, q.current_key.bytes@),
        q2.visited_keys@.len() == q.visited_keys@.len() + 1,
{
    let n = q.visited_keys@.len() as int;
    assert(key_views(q2.visited_keys@).len() == n + 1);
    assert(key_views(q2.visited_keys@)[n] == q.current_key.bytes@);
    assert(q2.visited_keys@[n]@ == q.current_key.bytes@);
}

/// A query stops at the depth limit as soon as its depth reaches it, and
/// on a circle as soon as it comes back to a key it has read; otherwise it
/// reads the current key.
pub proof fn law_query_stops_at_limit_and_circle<V>(q: Query, max_depth: u64, r: QueryStep<V>, q2: Query)
    requires
        head_result(q, max_depth, r, q2),
    ensures
        q.depth >= max_depth ==> (r matches QueryStep::Done(TrackingCopyQueryResult::DepthLimit { depth })
            && depth == q.depth),
        q.depth < max_depth && visited(q.visited_keys@, q.current_key.bytes@) ==> (r matches QueryStep::Done(
            TrackingCopyQueryResult::CircularReference(_),
        )),
        q.depth < max_depth && !visited(q.visited_keys@, q.current_key.bytes@) ==> r is ReadCurrentKey,
{
}

impl TrackingCopy {
    /// Starts a query by path from the base key, under the copy's depth
    /// limit. Only the limit is taken from the copy: the query reads the
    /// state itself, so the values written, added or pruned in the copy's
    /// cache are never seen by it.
    pub fn query(&self, base_key: QueryKey, path: Vec<String>) -> (r: (Query, u64))
        ensures
            fresh_query(r.0, base_key, path@),
            r.1 == self.max_query_depth,
    {
        (Query::new(base_key, path), self.max_query_depth)
    }
}

/// Two tracking copies with the same depth limit, whatever their caches
/// hold and their effects record, start the same query for the same base
/// key and path, under the same limit: a query's steps then depend only on
/// the query, the limit and what is read from the state.
pub proof fn law_query_ignores_cache(
    a: TrackingCopy,
    b: TrackingCopy,
    base_key: QueryKey,
    path: Seq<String>,
    qa: (Query, u64),
    qb: (Query, u64),
)
    requires
        a.max_query_depth == b.max_query_depth,
        fresh_query(qa.0, base_key, path) && qa.1 == a.max_query_depth,
        fresh_query(qb.0, base_key, path) && qb.1 == b.max_query_depth,
    ensures
        qa.1 == qb.1,
        qa.0.base_text@ == qb.0.base_text@,
        qa.0.current_key == qb.0.current_key,
        qa.0.names@ == qb.0.names@,
        qa.0.next == qb.0.next,
        qa.0.depth == qb.0.depth,
        qa.0.visited_keys@ == qb.0.visited_keys@,
        qa.0.proofs@ == qb.0.proofs@,
{
    assert(qa.0.visited_keys@ =~= qb.0.visited_keys@);
    assert(qa.0.proofs@ =~= qb.0.proofs@);
}

} // verus!
