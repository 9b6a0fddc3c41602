//! Bounded tracking of the highest-cost entries.
//!
//! A [`TopKTracker`] receives `(index, cost)` pairs and retains at most `K`
//! of them: always the `K` highest costs seen so far, with ties resolved by
//! whichever pairs the underlying queue keeps. It is built on
//! `priority_queue::DoublePriorityQueue`, which can evict its minimum in
//! logarithmic time.

use vstd::prelude::*;
use vstd::multiset::Multiset;

use std::collections::hash_map::RandomState;
use priority_queue::DoublePriorityQueue;

verus! {

broadcast use vstd::multiset::group_multiset_axioms, vstd::seq_lib::group_to_multiset_ensures;

#[verifier::external_type_specification]
#[verifier::external_body]
#[verifier::reject_recursive_types(I)]
#[verifier::reject_recursive_types(P)]
#[verifier::reject_recursive_types(H)]
pub struct ExDoublePriorityQueue<I, P, H>(DoublePriorityQueue<I, P, H>);

/// The `(index, cost)` pairs a queue holds, as a multiset.
pub uninterp spec fn queue_entries(q: DoublePriorityQueue<usize, u64, RandomState>) -> Multiset<
    (usize, u64),
>;

/// Relies on `DoublePriorityQueue::new`: a fresh queue holds nothing.
#[verifier::external_body]
fn pq_new() -> (q: DoublePriorityQueue<usize, u64, RandomState>)
    ensures
        queue_entries(q) == Multiset::<(usize, u64)>::empty(),
{
    DoublePriorityQueue::new()
}

/// Relies on `DoublePriorityQueue::len`: the number of items in the queue.
#[verifier::external_body]
fn pq_len(q: &DoublePriorityQueue<usize, u64, RandomState>) -> (r: usize)
    ensures
        r == queue_entries(*q).len(),
{
    q.len()
}

/// Relies on `DoublePriorityQueue::push`: pushing an item that is not yet
/// in the queue inserts it with the given priority and changes nothing
/// else.
#[verifier::external_body]
fn pq_push(q: &mut DoublePriorityQueue<usize, u64, RandomState>, item: usize, cost: u64)
    requires
        forall|e: (usize, u64)| queue_entries(*old(q)).contains(e) ==> e.0 != item,
    ensures
        queue_entries(*final(q)) == queue_entries(*old(q)).insert((item, cost)),
{
    q.push(item, cost);
}

/// Relies on `DoublePriorityQueue::pop_min`: removes and returns a pair
/// with the lowest cost of a non-empty queue, and `None` from an empty one.
#[verifier::external_body]
fn pq_pop_min(q: &mut DoublePriorityQueue<usize, u64, RandomState>) -> (r: Option<(usize, u64)>)
    ensures
        queue_entries(*old(q)).len() == 0 ==> r is None && queue_entries(*final(q)) == queue_entries(
            *old(q),
        ),
        queue_entries(*old(q)).len() > 0 ==> (r matches Option::Some(p) && queue_entries(
            *old(q),
        ).contains(p) && queue_entries(*final(q)) == queue_entries(*old(q)).remove(p) && forall|
            e: (usize, u64),
        |
            queue_entries(*old(q)).contains(e) ==> p.1 <= e.1),
{
    q.pop_min()
}

/// Relies on `DoublePriorityQueue::pop_max`: removes and returns a pair
/// with the highest cost of a non-empty queue, and `None` from an empty
/// one.
#[verifier::external_body]
fn pq_pop_max(q: &mut DoublePriorityQueue<usize, u64, RandomState>) -> (r: Option<(usize, u64)>)
    ensures
        queue_entries(*old(q)).len() == 0 ==> r is None && queue_entries(*final(q)) == queue_entries(
            *old(q),
        ),
        queue_entries(*old(q)).len() > 0 ==> (r matches Option::Some(p) && queue_entries(
            *old(q),
        ).contains(p) && queue_entries(*final(q)) == queue_entries(*old(q)).remove(p) && forall|
            e: (usize, u64),
        |
            queue_entries(*old(q)).contains(e) ==> p.1 >= e.1),
{
    q.pop_max()
}

/// A bounded tracker of the highest-cost `(index, cost)` pairs seen so far.
pub struct TopKTracker {
    queue: DoublePriorityQueue<usize, u64, RandomState>,
    capacity: usize,
    seen: Ghost<Multiset<(usize, u64)>>,
}

impl TopKTracker {
    /// All pairs ever pushed into the tracker.
    pub closed spec fn seen(self) -> Multiset<(usize, u64)> {
        self.seen@
    }

    /// The pairs the tracker currently retains.
    pub closed spec fn kept(self) -> Multiset<(usize, u64)> {
        queue_entries(self.queue)
    }

    /// The bound on how many pairs the tracker retains.
    pub closed spec fn cap(self) -> nat {
        self.capacity as nat
    }

    /// The tracker retains exactly the highest-cost pairs seen so far: all
    /// retained pairs were seen, their number is the capacity (or the
    /// number seen, while that is smaller), and no discarded pair costs
    /// more than any retained one.
    pub open spec fn inv(self) -> bool {
        &&& self.kept().subset_of(self.seen())
        &&& self.kept().len() == if self.seen().len() <= self.cap() {
            self.seen().len()
        } else {
            self.cap()
        }
        &&& forall|d: (usize, u64), e: (usize, u64)|
            self.seen().sub(self.kept()).contains(d) && self.kept().contains(e) ==> d.1 <= e.1
    }

    /// A fresh tracker that will retain at most `capacity` pairs.
    pub fn new(capacity: usize) -> (r: TopKTracker)
        ensures
            r.inv(),
            r.seen() == Multiset::<(usize, u64)>::empty(),
            r.kept() == Multiset::<(usize, u64)>::empty(),
            r.cap() == capacity,
    {
        TopKTracker {
            queue: pq_new(),
            capacity,
            seen: Ghost(Multiset::empty()),
        }
    }

    /// How many pairs the tracker currently retains.
    pub fn len(&self) -> (r: usize)
        ensures
            r == self.kept().len(),
    {
        pq_len(&self.queue)
    }

    /// Record one pair. The pair joins the retained set; where that
    /// overflows the capacity, a pair of minimal cost is discarded, so the
    /// tracker keeps holding exactly the highest-cost pairs seen.
    ///
    /// Indices must be fresh: each pushed pair carries an index no earlier
    /// pair had.
    pub fn push(&mut self, index: usize, cost: u64)
        requires
            old(self).inv(),
            forall|e: (usize, u64)| old(self).seen().contains(e) ==> e.0 != index,
        ensures
            final(self).inv(),
            final(self).seen() == old(self).seen().insert((index, cost)),
            final(self).cap() == old(self).cap(),
    {
        let ghost n: (usize, u64) = (index, cost);
        let ghost s0: Multiset<(usize, u64)> = self.seen@;
        let ghost k0: Multiset<(usize, u64)> = queue_entries(self.queue);
        let ghost d0: Multiset<(usize, u64)> = s0.sub(k0);
        proof {
            // The fresh pair is in neither the seen nor the kept set.
            assert(k0.count(n) <= s0.count(n));
            assert(s0.count(n) == 0) by {
                if s0.count(n) > 0 {
                    assert(s0.contains(n));
                }
            }
            assert(d0.len() == s0.len() - k0.len());
        }
        self.seen = Ghost(self.seen@.insert(n));
        proof {
            assert forall|e: (usize, u64)| queue_entries(self.queue).contains(e) implies e.0
                != index by {
                assert(k0.count(e) <= s0.count(e));
                assert(s0.contains(e));
            }
        }
        pq_push(&mut self.queue, index, cost);
        let ghost s1: Multiset<(usize, u64)> = s0.insert(n);
        let ghost k1: Multiset<(usize, u64)> = k0.insert(n);
        proof {
            assert(k1.subset_of(s1));
            assert forall|v: (usize, u64)| s1.sub(k1).count(v) == d0.count(v) by {
                assert(s1.count(v) == s0.count(v) + (if v == n {
                    1int
                } else {
                    0int
                }));
            }
            assert(s1.sub(k1) =~= d0);
        }
        let len = pq_len(&self.queue);
        if len > self.capacity {
            proof {
                // The retained set was full, so the discarded pairs obey the
                // old separation bound against every old retained pair.
                assert(k0.len() == self.capacity);
                assert(s0.len() >= self.capacity);
            }
            let popped = pq_pop_min(&mut self.queue);
            proof {
                match popped {
                    Option::Some(m) => {
                        let k2 = k1.remove(m);
                        assert(queue_entries(self.queue) == k2);
                        // Cardinality: back to exactly the capacity.
                        assert(k2.len() == self.capacity);
                        assert(s1.len() > self.capacity);
                        // Subset: still only seen pairs are retained.
                        assert forall|v: (usize, u64)| k2.count(v) <= s1.count(v) by {
                            assert(k1.count(v) <= s1.count(v));
                        }
                        // Separation: no discarded pair costs more than a
                        // retained one.
                        assert forall|d: (usize, u64), e: (usize, u64)|
                            s1.sub(k2).contains(d) && k2.contains(e) implies d.1 <= e.1 by {
                            assert(k2.count(e) <= k1.count(e));
                            assert(k1.contains(e));
                            if d == m {
                                // The popped pair is minimal among the
                                // combined pairs.
                                assert(k1.contains(m));
                                assert(m.1 <= e.1);
                            } else {
                                assert(k2.count(d) == k1.count(d));
                                assert(s1.sub(k2).count(d) == s1.count(d) - k1.count(d));
                                assert(d0.contains(d));
                                if e == n {
                                    // The new pair was not popped, so some
                                    // old retained pair was, and it sits
                                    // between the discarded and the new
                                    // pair.
                                    assert(m != n) by {
                                        if m == n {
                                            assert(k2.count(n) == k1.count(n) - 1);
                                            assert(k1.count(n) == k0.count(n) + 1);
                                            assert(k0.count(n) == 0);
                                            assert(!k2.contains(e));
                                        }
                                    }
                                    assert(k1.count(m) == k0.count(m));
                                    assert(k0.contains(m));
                                    assert(d.1 <= m.1);
                                    assert(m.1 <= n.1);
                                } else {
                                    assert(k1.count(e) == k0.count(e) + (if e == n {
                                        1int
                                    } else {
                                        0int
                                    }));
                                    assert(k0.contains(e));
                                    assert(d.1 <= e.1);
                                }
                            }
                        }
                    },
                    Option::None => {},
                }
            }
        } else {
            proof {
                // No eviction: nothing was ever discarded, since a
                // non-empty discarded set forces a full retained set.
                assert(k1.len() == k0.len() + 1);
                assert(k0.len() < self.capacity);
                assert(s0.len() < self.capacity);
                assert(d0.len() == 0);
                assert forall|d: (usize, u64), e: (usize, u64)|
                    s1.sub(k1).contains(d) && k1.contains(e) implies d.1 <= e.1 by {
                    assert(d0.count(d) > 0);
                    assert(d0.len() >= 1) by {
                        assert(d0.contains(d));
                    }
                }
            }
        }
    }

    /// Merge another tracker into this one: afterwards this tracker has
    /// seen everything either had seen, and so again retains exactly the
    /// highest-cost pairs of the union, trimmed to the capacity.
    ///
    /// The two trackers must share the capacity and must have seen
    /// disjoint indices, each index at most once.
    pub fn merge(&mut self, other: TopKTracker)
        requires
            old(self).inv(),
            other.inv(),
            old(self).cap() == other.cap(),
            forall|e1: (usize, u64), e2: (usize, u64)|
                old(self).seen().contains(e1) && other.seen().contains(e2) ==> e1.0 != e2.0,
            forall|e1: (usize, u64), e2: (usize, u64)|
                other.seen().contains(e1) && other.seen().contains(e2) && e1.0 == e2.0 ==> e1
                    == e2,
            forall|e: (usize, u64)| other.seen().count(e) <= 1,
        ensures
            final(self).inv(),
            final(self).seen() == old(self).seen().add(other.seen()),
            final(self).cap() == old(self).cap(),
    {
        let ghost seen1 = self.seen@;
        let ghost seen2 = other.seen();
        let ghost kept2 = other.kept();
        let ghost dropped2 = seen2.sub(kept2);
        let ghost cap = self.capacity as nat;
        let entries = other.into_sorted_desc();
        proof {
            // The other tracker's retained pairs carry pairwise distinct
            // indices, so they can be replayed as fresh pushes.
            assert forall|x: (usize, u64)|
                entries@.to_multiset().contains(x) implies entries@.to_multiset().count(x)
                == 1 by {
                assert(kept2.count(x) <= seen2.count(x));
            }
            entries@.lemma_multiset_has_no_duplicates_conv();
            assert(entries@.take(0int).to_multiset() =~= Multiset::<(usize, u64)>::empty());
            assert(self.seen() =~= seen1.add(entries@.take(0int).to_multiset()));
        }
        let mut i: usize = 0;
        while i < entries.len()
            invariant
                self.inv(),
                self.cap() == cap,
                0 <= i <= entries@.len(),
                entries@.to_multiset() == kept2,
                entries@.no_duplicates(),
                kept2.subset_of(seen2),
                self.seen() == seen1.add(entries@.take(i as int).to_multiset()),
                forall|e1: (usize, u64), e2: (usize, u64)|
                    seen1.contains(e1) && seen2.contains(e2) ==> e1.0 != e2.0,
                forall|e1: (usize, u64), e2: (usize, u64)|
                    seen2.contains(e1) && seen2.contains(e2) && e1.0 == e2.0 ==> e1 == e2,
            decreases entries@.len() - i,
        {
            let (index, cost) = entries[i];
            proof {
                let cur: (usize, u64) = entries@[i as int];
                assert(entries@.contains(cur));
                assert(entries@.to_multiset().contains(cur)) by {
                    vstd::seq_lib::lemma_multiset_commutative(
                        entries@.take(i as int),
                        entries@.skip(i as int),
                    );
                    assert(entries@.take(i as int) + entries@.skip(i as int) =~= entries@);
                    assert(entries@.skip(i as int)[0] == cur);
                    assert(entries@.skip(i as int).contains(cur));
                    assert(entries@.skip(i as int).to_multiset().contains(cur));
                }
                assert(seen2.contains(cur));
                assert forall|e: (usize, u64)| self.seen().contains(e) implies e.0 != index by {
                    assert(self.seen().count(e) == seen1.count(e) + entries@.take(
                        i as int,
                    ).to_multiset().count(e));
                    if seen1.count(e) > 0 {
                        assert(seen1.contains(e));
                    } else {
                        assert(entries@.take(i as int).to_multiset().count(e) > 0);
                        assert(entries@.take(i as int).contains(e));
                        let j = choose|j: int|
                            0 <= j < i && entries@.take(i as int)[j] == e;
                        assert(entries@[j] == e);
                        assert(kept2.count(e) <= seen2.count(e));
                        assert(entries@.to_multiset().contains(e)) by {
                            vstd::seq_lib::lemma_multiset_commutative(
                                entries@.take(i as int),
                                entries@.skip(i as int),
                            );
                            assert(entries@.take(i as int) + entries@.skip(i as int)
                                =~= entries@);
                        }
                        assert(seen2.contains(e));
                        if e.0 == index {
                            // Two distinct positions would then hold one
                            // pair, against the duplicate-freeness above.
                            assert(e == cur);
                            assert(false);
                        }
                    }
                }
            }
            self.push(index, cost);
            proof {
                assert(entries@.take(i + 1) =~= entries@.take(i as int).push(entries@[i as int]));
                assert(entries@.take(i + 1).to_multiset() =~= entries@.take(
                    i as int,
                ).to_multiset().insert(entries@[i as int]));
                assert(self.seen() =~= seen1.add(entries@.take(i + 1).to_multiset()));
            }
            i = i + 1;
        }
        proof {
            assert(entries@.take(entries@.len() as int) =~= entries@);
        }
        let ghost combined = seen1.add(kept2);
        let ghost full = seen1.add(seen2);
        let ghost kept_now = self.kept();
        proof {
            assert(self.seen() =~= combined);
            // What the other tracker had already discarded joins the seen
            // set; the retention invariant extends to it.
            assert forall|v: (usize, u64)|
                seen2.count(v) == kept2.count(v) + dropped2.count(v) by {}
            assert(full =~= combined.add(dropped2));
            assert(dropped2.len() == seen2.len() - kept2.len());
            assert(full.len() == combined.len() + dropped2.len());
            // Cardinality: the retained count matches the enlarged seen
            // set as well.
            if combined.len() < cap {
                assert(kept_now.len() == combined.len());
                assert(kept2.len() <= combined.len()) by {
                    assert(forall|v: (usize, u64)| kept2.count(v) <= combined.count(v));
                    assert(combined.sub(kept2).len() == combined.len() - kept2.len());
                }
                assert(kept2.len() < cap);
                assert(kept2.len() == seen2.len());
                assert(dropped2.len() == 0);
                assert(full.len() == combined.len());
            }
            // Separation for the enlarged seen set.
            assert forall|d: (usize, u64), e: (usize, u64)|
                full.sub(kept_now).contains(d) && kept_now.contains(e) implies d.1 <= e.1 by {
                assert(kept_now.count(d) <= combined.count(d));
                if combined.count(d) > kept_now.count(d) {
                    assert(combined.sub(kept_now).contains(d));
                } else {
                    assert(dropped2.count(d) > 0);
                    assert(dropped2.contains(d));
                    if exists|v: (usize, u64)| kept2.count(v) > kept_now.count(v) {
                        let v = choose|v: (usize, u64)| kept2.count(v) > kept_now.count(v);
                        assert(combined.count(v) >= kept2.count(v));
                        assert(combined.sub(kept_now).contains(v));
                        assert(v.1 <= e.1);
                        assert(kept2.contains(v));
                        assert(d.1 <= v.1);
                    } else {
                        assert(forall|v: (usize, u64)| kept2.count(v) <= kept_now.count(v));
                        assert(dropped2.len() >= dropped2.count(d));
                        assert(seen2.len() > kept2.len());
                        assert(kept2.len() == cap);
                        assert(kept_now.sub(kept2).len() == kept_now.len() - kept2.len());
                        assert(kept_now.len() == cap);
                        assert(kept_now.sub(kept2).len() == 0);
                        vstd::multiset::lemma_multiset_empty_len::<(usize, u64)>(
                            kept_now.sub(kept2),
                        );
                        assert(kept_now =~= kept2);
                        assert(kept2.contains(e));
                        assert(d.1 <= e.1);
                    }
                }
            }
        }
        self.seen = Ghost(full);
        proof {
            assert(self.seen() == full);
            assert(self.kept() == kept_now);
            assert(full =~= seen1.add(seen2));
        }
    }

    /// A tracker that has seen a positive-cost pair retains one, as long
    /// as its capacity lets it retain anything at all: discarding every
    /// positive pair would contradict retaining only the highest costs.
    pub proof fn lemma_retains_positive(self)
        requires
            self.inv(),
            self.cap() > 0,
            exists|e: (usize, u64)| self.seen().contains(e) && e.1 > 0,
        ensures
            exists|e: (usize, u64)| self.kept().contains(e) && e.1 > 0,
    {
        let p = choose|e: (usize, u64)| self.seen().contains(e) && e.1 > 0;
        assert(self.seen().len() >= self.seen().count(p));
        assert(self.kept().len() > 0);
        vstd::multiset::lemma_multiset_empty_len::<(usize, u64)>(self.kept());
        let q = choose|v: (usize, u64)| 0 < self.kept().count(v);
        if self.kept().contains(p) {
        } else {
            assert(self.seen().sub(self.kept()).count(p) == self.seen().count(p)
                - self.kept().count(p));
            assert(self.seen().sub(self.kept()).contains(p));
            assert(self.kept().contains(q));
            assert(p.1 <= q.1);
            assert(self.kept().contains(q) && q.1 > 0);
        }
    }

    /// Hand out the retained pairs, sorted by descending cost.
    pub fn into_sorted_desc(self) -> (r: Vec<(usize, u64)>)
        ensures
            r@.to_multiset() == self.kept(),
            r@.len() == self.kept().len(),
            forall|i: int, j: int| 0 <= i < j < r@.len() ==> r@[i].1 >= r@[j].1,
    {
        let TopKTracker { mut queue, capacity: _, seen: _ } = self;
        let ghost k0: Multiset<(usize, u64)> = queue_entries(queue);
        let mut result: Vec<(usize, u64)> = Vec::new();
        proof {
            assert(result@.to_multiset() =~= Multiset::<(usize, u64)>::empty());
        }
        loop
            invariant
                result@.to_multiset().add(queue_entries(queue)) =~= k0,
                forall|i: int, j: int| 0 <= i < j < result@.len() ==> result@[i].1 >= result@[j].1,
                forall|i: int, e: (usize, u64)|
                    0 <= i < result@.len() && queue_entries(queue).contains(e) ==> result@[i].1
                        >= e.1,
            ensures
                queue_entries(queue).len() == 0,
                result@.to_multiset().add(queue_entries(queue)) =~= k0,
                forall|i: int, j: int| 0 <= i < j < result@.len() ==> result@[i].1 >= result@[j].1,
            decreases queue_entries(queue).len(),
        {
            let len = pq_len(&queue);
            if len == 0 {
                break ;
            }
            let ghost before = queue_entries(queue);
            let popped = pq_pop_max(&mut queue);
            match popped {
                Option::Some(p) => {
                    let ghost old_result = result@;
                    result.push(p);
                    proof {
                        assert(result@ == old_result.push(p));
                        assert(result@.to_multiset() =~= old_result.to_multiset().insert(p));
                        assert(result@.to_multiset().add(queue_entries(queue)) =~= k0);
                        assert forall|i: int, e: (usize, u64)|
                            0 <= i < result@.len() && queue_entries(queue).contains(e) implies
                            result@[i].1 >= e.1 by {
                            assert(before.count(e) >= queue_entries(queue).count(e));
                            assert(before.contains(e));
                            if i < old_result.len() {
                                assert(result@[i] == old_result[i]);
                                assert(old_result[i].1 >= p.1);
                                assert(p.1 >= e.1);
                            } else {
                                assert(result@[i] == p);
                            }
                        }
                        assert forall|i: int, j: int|
                            0 <= i < j < result@.len() implies result@[i].1 >= result@[j].1 by {
                            if j < old_result.len() {
                            } else {
                                assert(result@[j] == p);
                                assert(before.contains(p));
                                if i < old_result.len() {
                                    assert(old_result[i].1 >= p.1);
                                }
                            }
                        }
                    }
                },
                Option::None => {},
            }
        }
        proof {
            vstd::multiset::lemma_multiset_empty_len::<(usize, u64)>(queue_entries(queue));
            assert(result@.to_multiset() =~= k0);
        }
        result
    }
}

} // verus!
