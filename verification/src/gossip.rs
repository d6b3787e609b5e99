//! Choosing the peers that a message is gossiped to.
//!
//! The peers are drawn at random; what is proved holds of every draw.

use vstd::prelude::*;
use vstd::std_specs::hash::obeys_key_model;
use rand::rngs::StdRng;
use std::collections::HashSet;

verus! {

/// The random number generator of the node.
#[verifier::external_type_specification]
#[verifier::external_body]
pub struct ExStdRng(StdRng);

/// A peer of the node.
pub type NodeId = u64;

/// Whom a message is gossiped to.
#[derive(Copy, Clone, Debug, PartialEq, Eq, Structural)]
pub enum GossipTarget {
    /// Validators of the era with this id and non-validators, alternately.
    Mixed(u64),
    /// Any peers.
    All,
}

/// Draws a random `bool`.
///
/// Calls `rand::Rng::gen::<bool>`; nothing is promised of the outcome.
#[verifier::external_body]
fn random_bool(rng: &mut StdRng) -> (r: bool) {
    rand::Rng::gen::<bool>(rng)
}

/// Draws up to `amount` of the items at random, without repetition.
///
/// Calls `rand::seq::SliceRandom::choose_multiple`, which draws
/// `min(amount, items.len())` distinct positions of the slice; the items at
/// them come back, in an order that the draw decides.
#[verifier::external_body]
fn choose_from_slice(rng: &mut StdRng, items: &[u64], amount: usize) -> (r: Vec<u64>)
    ensures
        r@.len() == if amount < items@.len() {
            amount as int
        } else {
            items@.len() as int
        },
        r@.to_multiset().subset_of(items@.to_multiset()),
{
    rand::seq::SliceRandom::choose_multiple(items, rng, amount).copied().collect()
}

/// Draws up to `amount` of the items yielded by an iterator, at random and
/// without repetition.
///
/// Calls `rand::seq::IteratorRandom::choose_multiple`, which keeps
/// `min(amount, items.len())` of the yielded items by reservoir sampling,
/// in an order that is neither stable nor fully random.
#[verifier::external_body]
fn choose_from_iter(rng: &mut StdRng, items: &Vec<u64>, amount: usize) -> (r: Vec<u64>)
    ensures
        r@.len() == if amount < items@.len() {
            amount as int
        } else {
            items@.len() as int
        },
        r@.to_multiset().subset_of(items@.to_multiset()),
{
    rand::seq::IteratorRandom::choose_multiple(items.iter(), rng, amount).into_iter().copied().collect()
}

/// The elements of `a` and `b` alternately, starting with `a`; once one runs
/// out, the rest of the other.
pub open spec fn interleaved(a: Seq<u64>, b: Seq<u64>) -> Seq<u64>
    decreases a.len() + b.len(),
{
    if a.len() == 0 {
        b
    } else {
        seq![a[0]] + interleaved(b, a.drop_first())
    }
}

proof fn lemma_interleaved_len(a: Seq<u64>, b: Seq<u64>)
    ensures
        interleaved(a, b).len() == a.len() + b.len(),
    decreases a.len() + b.len(),
{
    if a.len() > 0 {
        lemma_interleaved_len(b, a.drop_first());
    }
}

proof fn lemma_interleaved_multiset(a: Seq<u64>, b: Seq<u64>)
    ensures
        interleaved(a, b).to_multiset() == a.to_multiset().add(b.to_multiset()),
    decreases a.len() + b.len(),
{
    broadcast use vstd::seq_lib::group_to_multiset_ensures;
    if a.len() > 0 {
        lemma_interleaved_multiset(b, a.drop_first());
        let rest = interleaved(b, a.drop_first());
        assert(interleaved(a, b) == seq![a[0]] + rest);
        vstd::seq_lib::lemma_multiset_commutative(seq![a[0]], rest);
        assert(a =~= seq![a[0]] + a.drop_first());
        vstd::seq_lib::lemma_multiset_commutative(seq![a[0]], a.drop_first());
        assert(a.to_multiset() =~= seq![a[0]].to_multiset().add(a.drop_first().to_multiset()));
        assert(interleaved(a, b).to_multiset() =~= a.to_multiset().add(b.to_multiset()));
    } else {
        assert(a.to_multiset() =~= vstd::multiset::Multiset::empty());
        assert(interleaved(a, b).to_multiset() =~= a.to_multiset().add(b.to_multiset()));
    }
}

/// What is left of `s` after its first `k` elements.
pub open spec fn rest_from(s: Seq<u64>, k: int) -> Seq<u64> {
    if k <= s.len() {
        s.skip(k)
    } else {
        Seq::empty()
    }
}

proof fn lemma_interleaved_empty(a: Seq<u64>)
    ensures
        interleaved(a, Seq::empty()) == a,
{
    if a.len() > 0 {
        assert(interleaved(Seq::<u64>::empty(), a.drop_first()) == a.drop_first());
        assert(seq![a[0]] + a.drop_first() =~= a);
    }
}

/// One round of interleaving: the first of `a`, then the first of `b`, each
/// if there is one.
proof fn lemma_interleaved_round(a: Seq<u64>, b: Seq<u64>)
    ensures
        interleaved(a, b) == (if a.len() > 0 {
            seq![a[0]]
        } else {
            Seq::empty()
        }) + (if b.len() > 0 {
            seq![b[0]]
        } else {
            Seq::empty()
        }) + interleaved(rest_from(a, 1), rest_from(b, 1)),
{
    if a.len() == 0 {
        if b.len() > 0 {
            assert(b =~= seq![b[0]] + b.skip(1));
            assert(rest_from(a, 1) =~= Seq::<u64>::empty());
        } else {
            assert(rest_from(a, 1) =~= Seq::<u64>::empty());
            assert(rest_from(b, 1) =~= Seq::<u64>::empty());
            assert(Seq::<u64>::empty() + Seq::<u64>::empty() + Seq::<u64>::empty() =~= Seq::<u64>::empty());
        }
    } else if b.len() == 0 {
        lemma_interleaved_empty(rest_from(a, 1));
        assert(rest_from(b, 1) =~= Seq::<u64>::empty());
        assert(a.drop_first() =~= rest_from(a, 1));
        assert(interleaved(b, a.drop_first()) == a.drop_first());
        assert(seq![a[0]] + Seq::<u64>::empty() + rest_from(a, 1) =~= seq![a[0]] + a.drop_first());
    } else {
        assert(a.drop_first() =~= rest_from(a, 1));
        assert(b.drop_first() =~= rest_from(b, 1));
        assert(interleaved(b, a.drop_first()) == seq![b[0]] + interleaved(a.drop_first(), b.drop_first()));
        assert(seq![a[0]] + (seq![b[0]] + interleaved(rest_from(a, 1), rest_from(b, 1))) =~= seq![a[0]]
            + seq![b[0]] + interleaved(rest_from(a, 1), rest_from(b, 1)));
    }
}

/// The items of `a` and `b` alternately, as `Itertools::interleave` yields them.
pub fn interleave(a: &Vec<u64>, b: &Vec<u64>) -> (r: Vec<u64>)
    ensures
        r@ == interleaved(a@, b@),
{
    let mut r: Vec<u64> = Vec::new();
    let mut k: usize = 0;
    assert(rest_from(a@, 0) =~= a@);
    assert(rest_from(b@, 0) =~= b@);
    assert(r@ + interleaved(a@, b@) =~= interleaved(a@, b@));
    while k < a.len() || k < b.len()
        invariant
            r@ + interleaved(rest_from(a@, k as int), rest_from(b@, k as int)) == interleaved(a@, b@),
        decreases a@.len() + b@.len() - k,
    {
        let ghost ra = rest_from(a@, k as int);
        let ghost rb = rest_from(b@, k as int);
        proof {
            lemma_interleaved_round(ra, rb);
            assert(rest_from(ra, 1) =~= rest_from(a@, k as int + 1));
            assert(rest_from(rb, 1) =~= rest_from(b@, k as int + 1));
        }
        let ghost before = r@;
        if k < a.len() {
            r.push(a[k]);
        }
        if k < b.len() {
            r.push(b[k]);
        }
        proof {
            assert(r@ =~= before + (if ra.len() > 0 {
                seq![ra[0]]
            } else {
                Seq::empty()
            }) + (if rb.len() > 0 {
                seq![rb[0]]
            } else {
                Seq::empty()
            }));
        }
        k += 1;
    }
    proof {
        assert(rest_from(a@, k as int) =~= Seq::<u64>::empty());
        assert(rest_from(b@, k as int) =~= Seq::<u64>::empty());
        assert(r@ =~= interleaved(a@, b@));
    }
    r
}

/// The peers of `s` that are not in `exclude`.
pub open spec fn not_excluded(s: Seq<u64>, exclude: Set<u64>) -> Seq<u64> {
    s.filter(|p: u64| !exclude.contains(p))
}

/// The peers of `s` that are in `members`.
pub open spec fn members_of(s: Seq<u64>, members: Set<u64>) -> Seq<u64> {
    s.filter(|p: u64| members.contains(p))
}

/// Whether `x` is a draw of up to `count` items of `s`, without repetition.
pub open spec fn is_draw(x: Seq<u64>, s: Seq<u64>, count: int) -> bool {
    &&& x.len() == if count < s.len() {
        count
    } else {
        s.len() as int
    }
    &&& x.to_multiset().subset_of(s.to_multiset())
}

/// Whether `r` can be the outcome of a gossip to `target` among `peers`, the
/// peers not excluded: for a mixed target, draws from the validators and from
/// the others, interleaved starting with either, and cut to `count`; for any
/// peers, a draw of `count` of them.
pub open spec fn gossip_outcome(r: Set<u64>, target: GossipTarget, count: int, peers: Seq<u64>, validators: Set<u64>) -> bool {
    match target {
        GossipTarget::Mixed(_) => {
            let vs = members_of(peers, validators);
            let others = peers.filter(|p: u64| !validators.contains(p));
            exists|x: Seq<u64>, y: Seq<u64>|
                #![trigger is_draw(x, vs, count), is_draw(y, others, count)]
                #![trigger is_draw(x, others, count), is_draw(y, vs, count)]
                ((is_draw(x, vs, count) && is_draw(y, others, count)) || (is_draw(x, others, count) && is_draw(
                    y,
                    vs,
                    count,
                ))) && r == interleaved(x, y).take(
                    if count < interleaved(x, y).len() {
                        count
                    } else {
                        interleaved(x, y).len() as int
                    },
                ).to_set()
        },
        GossipTarget::All => exists|x: Seq<u64>| #[trigger] is_draw(x, peers, count) && r == x.to_set(),
    }
}

/// The items of a vector in a set.
fn to_hash_set(v: &Vec<u64>) -> (r: HashSet<u64>)
    ensures
        r@ == v@.to_set(),
{
    broadcast use vstd::std_specs::hash::group_hash_axioms;
    let mut r: HashSet<u64> = HashSet::new();
    let mut i: usize = 0;
    while i < v.len()
        invariant
            i <= v@.len(),
            r@ == v@.take(i as int).to_set(),
        decreases v@.len() - i,
    {
        assert(obeys_key_model::<u64>());
        r.insert(v[i]);
        proof {
            assert(v@.take(i as int + 1) =~= v@.take(i as int).push(v@[i as int]));
            assert(v@.take(i as int).push(v@[i as int]).to_set() =~= v@.take(i as int).to_set().insert(v@[i as int])) by {
                broadcast use vstd::seq_lib::group_seq_properties;
            }
        }
        i += 1;
    }
    assert(v@.take(v@.len() as int) =~= v@);
    r
}

/// The items of `s` kept by a filter on set membership.
fn keep(s: &Vec<u64>, set: &HashSet<u64>, inside: bool) -> (r: Vec<u64>)
    ensures
        inside ==> r@ == s@.filter(|p: u64| set@.contains(p)),
        !inside ==> r@ == s@.filter(|p: u64| !set@.contains(p)),
{
    broadcast use vstd::std_specs::hash::group_hash_axioms;
    let ghost pred = if inside {
        |p: u64| set@.contains(p)
    } else {
        |p: u64| !set@.contains(p)
    };
    let mut r: Vec<u64> = Vec::new();
    let mut i: usize = 0;
    while i < s.len()
        invariant
            i <= s@.len(),
            pred == (if inside {
                |p: u64| set@.contains(p)
            } else {
                |p: u64| !set@.contains(p)
            }),
            r@ == s@.take(i as int).filter(pred),
        decreases s@.len() - i,
    {
        assert(obeys_key_model::<u64>());
        let member = set.contains(&s[i]);
        proof {
            assert(s@.take(i as int + 1) =~= s@.take(i as int).push(s@[i as int]));
            s@.take(i as int).lemma_filter_push(s@[i as int], pred);
        }
        if member == inside {
            r.push(s[i]);
        }
        i += 1;
    }
    assert(s@.take(s@.len() as int) =~= s@);
    r
}

/// Chooses up to `count` connected peers, none of them excluded, to gossip to.
/// For a mixed target, validators of the era and other peers alternate,
/// starting with either at random.
pub fn choose_gossip_peers(
    rng: &mut StdRng,
    gossip_target: GossipTarget,
    count: usize,
    exclude: &HashSet<u64>,
    connected_peers: &Vec<u64>,
    validators_in_era: &HashSet<u64>,
) -> (r: HashSet<u64>)
    ensures
        gossip_outcome(r@, gossip_target, count as int, not_excluded(connected_peers@, exclude@), validators_in_era@),
{
    let filtered = keep(connected_peers, exclude, false);
    assert(filtered@ == not_excluded(connected_peers@, exclude@));
    match gossip_target {
        GossipTarget::Mixed(_) => {
            let validators = keep(&filtered, validators_in_era, true);
            let non_validators = keep(&filtered, validators_in_era, false);
            let validators_first = random_bool(rng);
            let (first, second) = if validators_first {
                (validators, non_validators)
            } else {
                (non_validators, validators)
            };
            let x = choose_from_slice(rng, first.as_slice(), count);
            let y = choose_from_iter(rng, &second, count);
            let all = interleave(&x, &y);
            proof {
                lemma_interleaved_len(x@, y@);
            }
            let n = if count < all.len() {
                count
            } else {
                all.len()
            };
            let mut taken: Vec<u64> = Vec::new();
            let mut i: usize = 0;
            while i < n
                invariant
                    i <= n,
                    n <= all@.len(),
                    taken@ == all@.take(i as int),
                decreases n - i,
            {
                taken.push(all[i]);
                i += 1;
                assert(taken@ =~= all@.take(i as int));
            }
            let r = to_hash_set(&taken);
            proof {
                let vs = members_of(filtered@, validators_in_era@);
                let others = filtered@.filter(|p: u64| !validators_in_era@.contains(p));
                if validators_first {
                    assert(is_draw(x@, vs, count as int) && is_draw(y@, others, count as int));
                } else {
                    assert(is_draw(x@, others, count as int) && is_draw(y@, vs, count as int));
                }
            }
            r
        },
        GossipTarget::All => {
            let x = choose_from_slice(rng, filtered.as_slice(), count);
            let r = to_hash_set(&x);
            assert(is_draw(x@, filtered@, count as int));
            r
        },
    }
}

/// An item of a draw is an item of what it was drawn from.
proof fn lemma_draw_contains(x: Seq<u64>, s: Seq<u64>, count: int, p: u64)
    requires
        is_draw(x, s, count),
        x.contains(p),
    ensures
        s.contains(p),
{
    broadcast use vstd::seq_lib::group_to_multiset_ensures;
    assert(x.to_multiset().count(p) > 0);
    assert(s.to_multiset().count(p) > 0);
}

/// Gossip only reaches peers that are connected and not excluded, and at
/// most `count` of them.
pub proof fn law_gossip_reaches_eligible_peers(
    r: Set<u64>,
    target: GossipTarget,
    count: int,
    connected: Seq<u64>,
    exclude: Set<u64>,
    validators: Set<u64>,
)
    requires
        gossip_outcome(r, target, count, not_excluded(connected, exclude), validators),
    ensures
        forall|p: u64| #[trigger] r.contains(p) ==> connected.contains(p) && !exclude.contains(p),
        r.finite(),
        r.len() <= count || r.len() == 0,
{
    broadcast use vstd::seq_lib::group_to_multiset_ensures, vstd::seq_lib::seq_to_set_is_finite;
    let peers = not_excluded(connected, exclude);
    assert forall|p: u64| peers.contains(p) implies connected.contains(p) && !exclude.contains(p) by {
        let k = choose|k: int| 0 <= k < peers.len() && peers[k] == p;
        connected.lemma_filter_contains_rev(|q: u64| !exclude.contains(q), p);
        assert(connected.filter(|q: u64| !exclude.contains(q)).contains(p));
        connected.lemma_filter_pred(|q: u64| !exclude.contains(q), k);
    }
    match target {
        GossipTarget::Mixed(_) => {
            let vs = members_of(peers, validators);
            let others = peers.filter(|p: u64| !validators.contains(p));
            let (x, y) = choose|x: Seq<u64>, y: Seq<u64>|
                #![trigger is_draw(x, vs, count), is_draw(y, others, count)]
                #![trigger is_draw(x, others, count), is_draw(y, vs, count)]
                ((is_draw(x, vs, count) && is_draw(y, others, count)) || (is_draw(x, others, count) && is_draw(
                    y,
                    vs,
                    count,
                ))) && r == interleaved(x, y).take(
                    if count < interleaved(x, y).len() {
                        count
                    } else {
                        interleaved(x, y).len() as int
                    },
                ).to_set();
            let all = interleaved(x, y);
            lemma_interleaved_multiset(x, y);
            lemma_interleaved_len(x, y);
            let n = if count < all.len() { count } else { all.len() as int };
            assert forall|p: u64| #[trigger] r.contains(p) implies connected.contains(p) && !exclude.contains(p) by {
                assert(all.take(n).contains(p));
                let k = choose|k: int| 0 <= k < n && all.take(n)[k] == p;
                assert(all.contains(p) && all[k] == p);
                assert(all.to_multiset().count(p) > 0);
                assert(x.to_multiset().count(p) > 0 || y.to_multiset().count(p) > 0);
                assert(vs.contains(p) || others.contains(p)) by {
                    if x.contains(p) {
                        if is_draw(x, vs, count) && is_draw(y, others, count) {
                            lemma_draw_contains(x, vs, count, p);
                        } else {
                            lemma_draw_contains(x, others, count, p);
                        }
                    } else {
                        if is_draw(x, vs, count) && is_draw(y, others, count) {
                            lemma_draw_contains(y, others, count, p);
                        } else {
                            lemma_draw_contains(y, vs, count, p);
                        }
                    }
                }
                if vs.contains(p) {
                    peers.lemma_filter_contains_rev(|q: u64| validators.contains(q), p);
                } else {
                    peers.lemma_filter_contains_rev(|q: u64| !validators.contains(q), p);
                }
            }
            all.take(n).lemma_cardinality_of_set();
        },
        GossipTarget::All => {
            let x = choose|x: Seq<u64>| #[trigger] is_draw(x, peers, count) && r == x.to_set();
            assert forall|p: u64| #[trigger] r.contains(p) implies connected.contains(p) && !exclude.contains(p) by {
                lemma_draw_contains(x, peers, count, p);
            }
            x.lemma_cardinality_of_set();
        },
    }
}

/// Up to `count` of the peers that are connected both ways, drawn at random
/// without repetition.
pub fn fully_connected_peers_random(rng: &mut StdRng, fully_connected: &Vec<NodeId>, count: usize) -> (r: Vec<NodeId>)
    ensures
        r@.len() == if count < fully_connected@.len() {
            count as int
        } else {
            fully_connected@.len() as int
        },
        r@.to_multiset().subset_of(fully_connected@.to_multiset()),
{
    choose_from_iter(rng, fully_connected, count)
}

} // verus!
