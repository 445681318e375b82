//! Which raindrops a bulk update reaches: the union of the raindrops named by
//! id and those found in the chosen collections, one per id and in id order,
//! less those that lie in an excluded collection.

use crate::models::common::CollectionScope;
use crate::models::raindrops::{in_scope, CollectionRef, Raindrop};
use std::collections::BTreeMap;
use vstd::std_specs::btree::increasing_seq;
use vstd::prelude::*;

verus! {

/// The raindrops that a bulk update reaches, with the selectors that chose them.
#[derive(Debug, Clone)]
pub struct ResolvedUpdateManySelection {
    pub targets: Vec<Raindrop>,
    pub from_collections: Vec<CollectionScope>,
    pub excluded_collections: Vec<CollectionScope>,
    pub search: Option<String>,
}

/// Some entry has id `k`.
pub open spec fn has_key(entries: Seq<(i64, Raindrop)>, k: i64) -> bool {
    exists|i: int| 0 <= i < entries.len() && #[trigger] entries[i].0 == k
}

/// The raindrop of the last entry with id `k`: a later entry replaces an
/// earlier one.
pub open spec fn latest(entries: Seq<(i64, Raindrop)>, k: i64) -> Raindrop
    decreases entries.len(),
{
    if entries.len() == 0 {
        arbitrary()
    } else if entries.last().0 == k {
        entries.last().1
    } else {
        latest(entries.drop_last(), k)
    }
}

/// A raindrop that lies in one of `scopes`.
pub open spec fn excluded_by(c: Option<CollectionRef>, scopes: Seq<CollectionScope>) -> bool {
    exists|j: int| 0 <= j < scopes.len() && in_scope(c, #[trigger] scopes[j])
}

/// `pairs` holds, in strictly ascending id order, every id of `entries`
/// whose latest raindrop lies in none of `scopes`, each with that raindrop,
/// and nothing else.
pub open spec fn merged(
    pairs: Seq<(i64, Raindrop)>,
    entries: Seq<(i64, Raindrop)>,
    scopes: Seq<CollectionScope>,
) -> bool {
    &&& forall|i: int, j: int| 0 <= i < j < pairs.len() ==> #[trigger] pairs[i].0 < #[trigger] pairs[j].0
    &&& forall|i: int|
        #![trigger pairs[i]]
        0 <= i < pairs.len() ==> has_key(entries, pairs[i].0) && pairs[i].1 == latest(
            entries,
            pairs[i].0,
        ) && !excluded_by(pairs[i].1.collection, scopes)
    &&& forall|k: i64|
        #![trigger has_key(entries, k)]
        has_key(entries, k) && !excluded_by(latest(entries, k).collection, scopes) ==> exists|i: int|
            0 <= i < pairs.len() && #[trigger] pairs[i].0 == k
}

proof fn lemma_push_entry(entries: Seq<(i64, Raindrop)>, e: (i64, Raindrop), k: i64)
    ensures
        has_key(entries.push(e), k) == (has_key(entries, k) || e.0 == k),
        latest(entries.push(e), k) == if e.0 == k {
            e.1
        } else {
            latest(entries, k)
        },
{
    let n = entries.push(e);
    assert(n.drop_last() =~= entries);
    if has_key(entries, k) {
        let i = choose|i: int| 0 <= i < entries.len() && #[trigger] entries[i].0 == k;
        assert(n[i].0 == k);
    }
    if e.0 == k {
        assert(n[entries.len() as int].0 == k);
    }
    if has_key(n, k) && e.0 != k {
        let i = choose|i: int| 0 <= i < n.len() && #[trigger] n[i].0 == k;
        assert(i < entries.len());
        assert(entries[i].0 == k);
    }
}

/// Whether a raindrop lies in one of `scopes`.
pub fn is_excluded(r: &Raindrop, scopes: &Vec<CollectionScope>) -> (b: bool)
    ensures
        b == excluded_by(r.collection, scopes@),
{
    let mut j: usize = 0;
    while j < scopes.len()
        invariant
            0 <= j <= scopes.len(),
            forall|q: int| 0 <= q < j ==> !in_scope(r.collection, #[trigger] scopes@[q]),
        decreases scopes.len() - j,
    {
        if r.matches_scope(scopes[j]) {
            return true;
        }
        j = j + 1;
    }
    false
}

/// The keys that a `BTreeMap` hands out in order ascend.
proof fn lemma_increasing_keys(keys: Seq<&i64>)
    requires
        increasing_seq(keys),
    ensures
        forall|i: int, j: int| 0 <= i < j < keys.len() ==> *keys[i] < *keys[j],
{
    vstd::std_specs::btree::axiom_increasing_seq_meaning::<&i64>(keys);
    assert forall|i: int, j: int| 0 <= i < j < keys.len() implies *keys[i] < *keys[j] by {
        assert(vstd::std_specs::cmp::OrdSpec::cmp_spec(&keys[i], &keys[j]) is Less);
    }
}

/// One raindrop per id, in id order, the latest given for each id, less
/// those that lie in an excluded scope (a `BTreeMap` from id to raindrop,
/// filled in order and then read out in key order, filtered).
pub fn merge_selection(entries: Vec<(i64, Raindrop)>, excluded: &Vec<CollectionScope>) -> (r: Vec<
    (i64, Raindrop),
>)
    ensures
        merged(r@, entries@, excluded@),
{
    let ghost all = entries@;
    let mut rest = entries;
    let mut map: BTreeMap<i64, Raindrop> = BTreeMap::new();
    let ghost mut done: Seq<(i64, Raindrop)> = Seq::empty();
    while rest.len() > 0
        invariant
            all == done + rest@,
            forall|k: i64| #[trigger] map@.contains_key(k) <==> has_key(done, k),
            forall|k: i64| #[trigger] map@.contains_key(k) ==> map@[k] == latest(done, k),
        decreases rest.len(),
    {
        let e = rest.remove(0);
        let ghost ge = e;
        proof {
            assert forall|key: i64| #[trigger] has_key(done.push(ge), key) == (has_key(done, key)
                || ge.0 == key) && latest(done.push(ge), key) == (if ge.0 == key {
                ge.1
            } else {
                latest(done, key)
            }) by {
                lemma_push_entry(done, ge, key);
            }
        }
        let ghost before = map@;
        let (k, v) = e;
        map.insert(k, v);
        proof {
            assert(map@ == before.insert(ge.0, ge.1));
            assert forall|key: i64| #[trigger] map@.contains_key(key) implies map@[key] == latest(
                done.push(ge),
                key,
            ) by {
                lemma_push_entry(done, ge, key);
                if key != ge.0 {
                    assert(before.contains_key(key));
                }
            }
            done = done.push(ge);
        }
    }
    assert(done =~= all);
    let ghost orig = map@;
    let ks = map.keys();
    let ghost key_seq = vstd::std_specs::iter::IteratorSpec::remaining(&ks);
    let mut keys: Vec<i64> = Vec::new();
    for kr in it: ks
        invariant
            keys@.len() == it.index(),
            forall|i: int| 0 <= i < it.index() ==> keys@[i] == *it.seq()[i],
    {
        keys.push(*kr);
    }
    assert(keys@.len() == key_seq.len());
    assert(forall|i: int| 0 <= i < keys@.len() ==> keys@[i] == *key_seq[i]);
    assert(key_seq.unref().to_set() == orig.dom());
    proof {
        lemma_increasing_keys(key_seq);
    }
    let ghost kseq = keys@;
    assert(kseq =~= key_seq.unref());
    let mut out: Vec<(i64, Raindrop)> = Vec::new();
    let mut i: usize = 0;
    while i < keys.len()
        invariant
            0 <= i <= keys.len(),
            keys@ == kseq,
            forall|a: int, b: int| 0 <= a < b < kseq.len() ==> kseq[a] < kseq[b],
            kseq.to_set() == orig.dom(),
            forall|k: i64| #[trigger] orig.contains_key(k) <==> has_key(all, k),
            forall|k: i64| #[trigger] orig.contains_key(k) ==> orig[k] == latest(all, k),
            forall|a: int|
                i <= a < kseq.len() ==> #[trigger] map@.contains_key(kseq[a]) && map@[kseq[a]]
                    == orig[kseq[a]],
            forall|p: int, q: int| 0 <= p < q < out@.len() ==> #[trigger] out@[p].0 < #[trigger] out@[q].0,
            forall|p: int|
                #![trigger out@[p]]
                0 <= p < out@.len() ==> has_key(all, out@[p].0) && out@[p].1 == latest(all, out@[p].0)
                    && !excluded_by(out@[p].1.collection, excluded@),
            forall|p: int, a: int|
                0 <= p < out@.len() && i <= a < kseq.len() ==> #[trigger] out@[p].0 < #[trigger] kseq[a],
            forall|a: int|
                0 <= a < i && !excluded_by(#[trigger] orig[kseq[a]].collection, excluded@) ==> exists|p: int|
                    0 <= p < out@.len() && #[trigger] out@[p].0 == kseq[a],
        decreases keys.len() - i,
    {
        let k = keys[i];
        let ghost before = map@;
        let ghost before_out = out@;
        assert(map@.contains_key(kseq[i as int]));
        let removed = map.remove(&k);
        assert(map@ == before.remove(k));
        let ghost ii = i as int;
        match removed {
            Some(r) => {
                assert(r == orig[k]);
                assert(orig.contains_key(k));
                if !is_excluded(&r, excluded) {
                    out.push((k, r));
                    proof {
                        assert(out@[out@.len() - 1].0 == k);
                        assert forall|p: int, q: int| 0 <= p < q < out@.len() implies #[trigger] out@[p].0
                            < #[trigger] out@[q].0 by {
                            if q == out@.len() - 1 {
                                assert(before_out[p].0 < kseq[ii]);
                            } else {
                                assert(before_out[p].0 < before_out[q].0);
                            }
                        }
                    }
                }
            },
            None => {
                assert(false);
            },
        }
        proof {
            assert forall|a: int| ii + 1 <= a < kseq.len() implies #[trigger] map@.contains_key(kseq[a])
                && map@[kseq[a]] == orig[kseq[a]] by {
                assert(kseq[ii] < kseq[a]);
                assert(before.contains_key(kseq[a]));
            }
            assert forall|p: int, a: int| 0 <= p < out@.len() && ii + 1 <= a < kseq.len() implies #[trigger] out@[p].0
                < #[trigger] kseq[a] by {
                assert(kseq[ii] < kseq[a]);
                if p < before_out.len() {
                    assert(out@[p] == before_out[p]);
                    assert(before_out[p].0 < kseq[a]);
                }
            }
            assert forall|a: int| 0 <= a < ii + 1 && !excluded_by(#[trigger] orig[kseq[a]].collection, excluded@) implies exists|p: int|
                0 <= p < out@.len() && #[trigger] out@[p].0 == kseq[a] by {
                if a < ii {
                    let p = choose|p: int| 0 <= p < before_out.len() && #[trigger] before_out[p].0 == kseq[a];
                    assert(out@[p] == before_out[p]);
                } else {
                    assert(out@[out@.len() - 1].0 == kseq[a]);
                }
            }
        }
        i = i + 1;
    }
    proof {
        assert forall|k: i64| #![trigger has_key(all, k)] has_key(all, k) && !excluded_by(
            latest(all, k).collection,
            excluded@,
        ) implies exists|p: int| 0 <= p < out@.len() && #[trigger] out@[p].0 == k by {
            assert(orig.contains_key(k));
            assert(kseq.to_set().contains(k));
            let a = choose|a: int| 0 <= a < kseq.len() && kseq[a] == k;
            assert(orig[kseq[a]] == latest(all, k));
        }
    }
    out
}

/// Some pair of `pairs` has id `k`.
pub open spec fn has_pair_key(pairs: Seq<(i64, Raindrop)>, k: i64) -> bool {
    exists|i: int| 0 <= i < pairs.len() && #[trigger] pairs[i].0 == k
}

pub open spec fn ascending(pairs: Seq<(i64, Raindrop)>) -> bool {
    forall|i: int, j: int| 0 <= i < j < pairs.len() ==> #[trigger] pairs[i].0 < #[trigger] pairs[j].0
}

proof fn lemma_ascending_same_keys(p1: Seq<(i64, Raindrop)>, p2: Seq<(i64, Raindrop)>)
    requires
        ascending(p1),
        ascending(p2),
        forall|k: i64| has_pair_key(p1, k) <==> has_pair_key(p2, k),
    ensures
        p1.len() == p2.len(),
        forall|i: int| 0 <= i < p1.len() ==> #[trigger] p1[i].0 == p2[i].0,
    decreases p1.len(),
{
    if p1.len() == 0 {
        if p2.len() > 0 {
            assert(has_pair_key(p2, p2[0].0));
        }
    } else {
        let k1 = p1[0].0;
        assert(has_pair_key(p1, k1));
        let j = choose|j: int| 0 <= j < p2.len() && #[trigger] p2[j].0 == k1;
        let k2 = p2[0].0;
        assert(has_pair_key(p2, k2));
        let m = choose|m: int| 0 <= m < p1.len() && #[trigger] p1[m].0 == k2;
        if j > 0 {
            assert(p2[0].0 < p2[j].0);
            if m > 0 {
                assert(p1[0].0 < p1[m].0);
            }
            assert(false);
        }
        let q1 = p1.drop_first();
        let q2 = p2.drop_first();
        assert forall|k: i64| has_pair_key(q1, k) <==> has_pair_key(q2, k) by {
            if has_pair_key(q1, k) {
                let a = choose|a: int| 0 <= a < q1.len() && #[trigger] q1[a].0 == k;
                assert(p1[a + 1].0 == k);
                assert(p1[0].0 < p1[a + 1].0);
                assert(has_pair_key(p1, k));
                let b = choose|b: int| 0 <= b < p2.len() && #[trigger] p2[b].0 == k;
                assert(b != 0);
                assert(q2[b - 1].0 == k);
            }
            if has_pair_key(q2, k) {
                let a = choose|a: int| 0 <= a < q2.len() && #[trigger] q2[a].0 == k;
                assert(p2[a + 1].0 == k);
                assert(p2[0].0 < p2[a + 1].0);
                assert(has_pair_key(p2, k));
                let b = choose|b: int| 0 <= b < p1.len() && #[trigger] p1[b].0 == k;
                assert(b != 0);
                assert(q1[b - 1].0 == k);
            }
        }
        assert(ascending(q1)) by {
            assert forall|i: int, j: int| 0 <= i < j < q1.len() implies #[trigger] q1[i].0
                < #[trigger] q1[j].0 by {
                assert(p1[i + 1].0 < p1[j + 1].0);
            }
        }
        assert(ascending(q2)) by {
            assert forall|i: int, j: int| 0 <= i < j < q2.len() implies #[trigger] q2[i].0
                < #[trigger] q2[j].0 by {
                assert(p2[i + 1].0 < p2[j + 1].0);
            }
        }
        lemma_ascending_same_keys(q1, q2);
        assert forall|i: int| 0 <= i < p1.len() implies #[trigger] p1[i].0 == p2[i].0 by {
            if i > 0 {
                assert(q1[i - 1].0 == q2[i - 1].0);
            }
        }
    }
}

/// What `merged` describes is one sequence: given the entries and the
/// excluded scopes, there is only one list of (id, raindrop) pairs that
/// holds every id whose latest raindrop is not excluded, with that
/// raindrop, once each and in ascending id order.
pub proof fn lemma_merged_unique(
    p1: Seq<(i64, Raindrop)>,
    p2: Seq<(i64, Raindrop)>,
    entries: Seq<(i64, Raindrop)>,
    scopes: Seq<CollectionScope>,
)
    requires
        merged(p1, entries, scopes),
        merged(p2, entries, scopes),
    ensures
        p1 == p2,
{
    assert forall|k: i64| has_pair_key(p1, k) <==> has_pair_key(p2, k) by {
        if has_pair_key(p1, k) {
            let a = choose|a: int| 0 <= a < p1.len() && #[trigger] p1[a].0 == k;
            assert(has_key(entries, p1[a].0));
        }
        if has_pair_key(p2, k) {
            let a = choose|a: int| 0 <= a < p2.len() && #[trigger] p2[a].0 == k;
            assert(has_key(entries, p2[a].0));
        }
    }
    assert(ascending(p1));
    assert(ascending(p2));
    lemma_ascending_same_keys(p1, p2);
    assert forall|i: int| 0 <= i < p1.len() implies #[trigger] p1[i] == p2[i] by {
        assert(p1[i].0 == p2[i].0);
        assert(p1[i].1 == latest(entries, p1[i].0));
        assert(p2[i].1 == latest(entries, p2[i].0));
    }
    assert(p1 =~= p2);
}

/// A bulk update never reaches a raindrop in an excluded collection.
pub proof fn lemma_merged_excludes(
    pairs: Seq<(i64, Raindrop)>,
    entries: Seq<(i64, Raindrop)>,
    scopes: Seq<CollectionScope>,
    i: int,
    j: int,
)
    requires
        merged(pairs, entries, scopes),
        0 <= i < pairs.len(),
        0 <= j < scopes.len(),
    ensures
        !in_scope(pairs[i].1.collection, scopes[j]),
{
    assert(!excluded_by(pairs[i].1.collection, scopes));
}

/// A bulk update reaches every id it was given or found, once, with the
/// raindrop last fetched for it, unless that raindrop is in an excluded
/// collection.
pub proof fn lemma_merged_keeps(
    pairs: Seq<(i64, Raindrop)>,
    entries: Seq<(i64, Raindrop)>,
    scopes: Seq<CollectionScope>,
    e: int,
)
    requires
        merged(pairs, entries, scopes),
        0 <= e < entries.len(),
        !excluded_by(latest(entries, entries[e].0).collection, scopes),
    ensures
        exists|i: int|
            0 <= i < pairs.len() && #[trigger] pairs[i].0 == entries[e].0 && pairs[i].1 == latest(
                entries,
                entries[e].0,
            ),
        forall|i: int, j: int|
            0 <= i < pairs.len() && 0 <= j < pairs.len() && pairs[i].0 == entries[e].0
                && pairs[j].0 == entries[e].0 ==> i == j,
{
    let k = entries[e].0;
    assert(has_key(entries, k));
    let i = choose|i: int| 0 <= i < pairs.len() && #[trigger] pairs[i].0 == k;
    assert(pairs[i].1 == latest(entries, pairs[i].0));
    assert forall|a: int, b: int|
        0 <= a < pairs.len() && 0 <= b < pairs.len() && pairs[a].0 == k && pairs[b].0 == k implies a
        == b by {
        if a < b {
            assert(pairs[a].0 < pairs[b].0);
        } else if b < a {
            assert(pairs[b].0 < pairs[a].0);
        }
    }
}

} // verus!
