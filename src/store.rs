//! The write rule of the calculated-indicator sink: a point is keyed by its
//! job fingerprint and time, and writing a key that exists replaces its value.

use vstd::prelude::*;
use crate::text::same_text;

verus! {

/// One calculated point: the fingerprint of its series, its time in
/// microseconds since the Unix epoch, and its value.
pub struct StoredPoint<V> {
    pub fingerprint: String,
    pub time: i64,
    pub value: V,
}

/// The key of a point.
pub open spec fn point_key<V>(p: StoredPoint<V>) -> (Seq<char>, i64) {
    (p.fingerprint@, p.time)
}

/// The store after writing `batch` in order into `m`.
pub open spec fn apply_batch<V>(m: Map<(Seq<char>, i64), V>, batch: Seq<StoredPoint<V>>) -> Map<(Seq<char>, i64), V>
    decreases batch.len(),
{
    if batch.len() == 0 {
        m
    } else {
        apply_batch(m, batch.drop_last()).insert(point_key(batch.last()), batch.last().value)
    }
}

/// An in-memory sink with the store's upsert rule.
pub struct PointStore<V> {
    rows: Vec<StoredPoint<V>>,
}

impl<V: Copy> PointStore<V> {
    /// Stored values by key.
    pub closed spec fn view(&self) -> Map<(Seq<char>, i64), V> {
        Map::new(
            |k: (Seq<char>, i64)| exists|i: int| 0 <= i < self.rows@.len() && point_key(self.rows@[i]) == k,
            |k: (Seq<char>, i64)| self.rows@[choose|i: int| 0 <= i < self.rows@.len() && point_key(self.rows@[i]) == k].value,
        )
    }

    /// Each key is stored once.
    pub closed spec fn wf(&self) -> bool {
        forall|i: int, j: int|
            0 <= i < self.rows@.len() && 0 <= j < self.rows@.len() && i != j ==> point_key(self.rows@[i]) != point_key(self.rows@[j])
    }

    proof fn lemma_index(&self, i: int)
        requires
            self.wf(),
            0 <= i < self.rows@.len(),
        ensures
            self@.contains_key(point_key(self.rows@[i])),
            self@[point_key(self.rows@[i])] == self.rows@[i].value,
    {
        let k = point_key(self.rows@[i]);
        let j = choose|j: int| 0 <= j < self.rows@.len() && point_key(self.rows@[j]) == k;
        assert(j == i);
    }

    /// An empty store.
    pub fn new() -> (r: Self)
        ensures
            r.wf(),
            r@ == Map::<(Seq<char>, i64), V>::empty(),
    {
        let r = PointStore { rows: Vec::new() };
        assert(r@ =~= Map::<(Seq<char>, i64), V>::empty());
        r
    }

    fn find(&self, fingerprint: &str, time: i64) -> (r: Option<usize>)
        requires
            self.wf(),
        ensures
            r is None ==> !self@.contains_key((fingerprint@, time)),
            r is Some ==> r->Some_0 < self.rows@.len() && point_key(self.rows@[r->Some_0 as int]) == (fingerprint@, time),
    {
        let mut i: usize = 0;
        while i < self.rows.len()
            invariant
                i <= self.rows@.len(),
                forall|j: int| 0 <= j < i ==> point_key(self.rows@[j]) != (fingerprint@, time),
            decreases self.rows@.len() - i,
        {
            if self.rows[i].time == time && same_text(self.rows[i].fingerprint.as_str(), fingerprint) {
                return Some(i);
            }
            i = i + 1;
        }
        None
    }

    /// The value stored under `(fingerprint, time)`, if any.
    pub fn read(&self, fingerprint: &str, time: i64) -> (r: Option<V>)
        requires
            self.wf(),
        ensures
            r == (if self@.contains_key((fingerprint@, time)) {
                Some(self@[(fingerprint@, time)])
            } else {
                None
            }),
    {
        match self.find(fingerprint, time) {
            None => None,
            Some(i) => {
                proof {
                    self.lemma_index(i as int);
                }
                Some(self.rows[i].value)
            },
        }
    }

    /// Writes one point: inserts it, or replaces the value stored under its key.
    pub fn upsert(&mut self, p: &StoredPoint<V>)
        requires
            old(self).wf(),
        ensures
            final(self).wf(),
            final(self)@ == old(self)@.insert(point_key(*p), p.value),
    {
        let ghost k = point_key(*p);
        let ghost old_map = self@;
        let row = StoredPoint { fingerprint: p.fingerprint.clone(), time: p.time, value: p.value };
        match self.find(p.fingerprint.as_str(), p.time) {
            Some(i) => {
                let ghost pre = self.rows@;
                self.rows.set(i, row);
                proof {
                    assert forall|a: int, b: int|
                        0 <= a < self.rows@.len() && 0 <= b < self.rows@.len() && a != b
                        implies point_key(self.rows@[a]) != point_key(self.rows@[b]) by {
                        if a != i {
                            assert(self.rows@[a] == pre[a]);
                        }
                        if b != i {
                            assert(self.rows@[b] == pre[b]);
                        }
                    }
                    assert forall|kk: (Seq<char>, i64)| #[trigger] self@.contains_key(kk) == old_map.insert(k, p.value).contains_key(kk) by {
                        if kk != k {
                            if self@.contains_key(kk) {
                                let j = choose|j: int| 0 <= j < self.rows@.len() && point_key(self.rows@[j]) == kk;
                                assert(pre[j] == self.rows@[j]);
                            }
                            if old_map.contains_key(kk) {
                                let j = choose|j: int| 0 <= j < pre.len() && point_key(pre[j]) == kk;
                                assert(j != i);
                                assert(point_key(self.rows@[j]) == kk);
                            }
                        } else {
                            assert(point_key(self.rows@[i as int]) == k);
                        }
                    }
                    assert forall|kk: (Seq<char>, i64)| #[trigger] self@.contains_key(kk) implies self@[kk] == old_map.insert(k, p.value)[kk] by {
                        let j = choose|j: int| 0 <= j < self.rows@.len() && point_key(self.rows@[j]) == kk;
                        self.lemma_index(j);
                        if kk != k {
                            assert(j != i);
                            assert(pre[j] == self.rows@[j]);
                            assert(old_map[kk] == pre[j].value) by {
                                let jj = choose|jj: int| 0 <= jj < pre.len() && point_key(pre[jj]) == kk;
                                assert(point_key(pre[jj]) == kk);
                                assert(jj == j);
                            }
                        }
                    }
                    assert(self@ =~= old_map.insert(k, p.value));
                }
            },
            None => {
                let ghost pre = self.rows@;
                self.rows.push(row);
                proof {
                    let n = pre.len() as int;
                    assert forall|a: int, b: int|
                        0 <= a < self.rows@.len() && 0 <= b < self.rows@.len() && a != b
                        implies point_key(self.rows@[a]) != point_key(self.rows@[b]) by {
                        if a == n {
                            assert(self.rows@[b] == pre[b]);
                            if point_key(pre[b]) == k {
                                assert(old_map.contains_key(k));
                            }
                        } else if b == n {
                            assert(self.rows@[a] == pre[a]);
                            if point_key(pre[a]) == k {
                                assert(old_map.contains_key(k));
                            }
                        } else {
                            assert(self.rows@[a] == pre[a] && self.rows@[b] == pre[b]);
                        }
                    }
                    assert forall|kk: (Seq<char>, i64)| #[trigger] self@.contains_key(kk) == old_map.insert(k, p.value).contains_key(kk) by {
                        if kk != k {
                            if self@.contains_key(kk) {
                                let j = choose|j: int| 0 <= j < self.rows@.len() && point_key(self.rows@[j]) == kk;
                                assert(j != n);
                                assert(pre[j] == self.rows@[j]);
                            }
                            if old_map.contains_key(kk) {
                                let j = choose|j: int| 0 <= j < pre.len() && point_key(pre[j]) == kk;
                                assert(point_key(self.rows@[j]) == kk);
                            }
                        } else {
                            assert(point_key(self.rows@[n]) == k);
                        }
                    }
                    assert forall|kk: (Seq<char>, i64)| #[trigger] self@.contains_key(kk) implies self@[kk] == old_map.insert(k, p.value)[kk] by {
                        let j = choose|j: int| 0 <= j < self.rows@.len() && point_key(self.rows@[j]) == kk;
                        self.lemma_index(j);
                        if kk != k {
                            assert(j != n);
                            assert(pre[j] == self.rows@[j]);
                            assert(old_map[kk] == pre[j].value) by {
                                let jj = choose|jj: int| 0 <= jj < pre.len() && point_key(pre[jj]) == kk;
                                assert(point_key(pre[jj]) == kk);
                                assert(self.rows@[jj] == pre[jj]);
                                assert(jj == j);
                            }
                        }
                    }
                    assert(self@ =~= old_map.insert(k, p.value));
                }
            },
        }
    }

    /// Writes a batch of points in order, each under the upsert rule.
    pub fn upsert_batch(&mut self, batch: &Vec<StoredPoint<V>>)
        requires
            old(self).wf(),
        ensures
            final(self).wf(),
            final(self)@ == apply_batch(old(self)@, batch@),
    {
        let ghost start = self@;
        let mut i: usize = 0;
        while i < batch.len()
            invariant
                i <= batch@.len(),
                self.wf(),
                self@ == apply_batch(start, batch@.subrange(0, i as int)),
            decreases batch@.len() - i,
        {
            proof {
                assert(batch@.subrange(0, i + 1).drop_last() =~= batch@.subrange(0, i as int));
            }
            self.upsert(&batch[i]);
            i = i + 1;
        }
        proof {
            assert(batch@.subrange(0, i as int) =~= batch@);
        }
    }
}

/// After a batch is written, reading the key of its last point with that
/// key yields that point's value.
pub proof fn law_read_after_upsert<V>(m: Map<(Seq<char>, i64), V>, batch: Seq<StoredPoint<V>>, i: int)
    requires
        0 <= i < batch.len(),
        forall|j: int| i < j < batch.len() ==> point_key(#[trigger] batch[j]) != point_key(batch[i]),
    ensures
        apply_batch(m, batch).contains_key(point_key(batch[i])),
        apply_batch(m, batch)[point_key(batch[i])] == batch[i].value,
    decreases batch.len(),
{
    if i < batch.len() - 1 {
        let prefix = batch.drop_last();
        assert forall|j: int| i < j < prefix.len() implies point_key(#[trigger] prefix[j]) != point_key(prefix[i]) by {
            assert(prefix[j] == batch[j]);
        }
        law_read_after_upsert(m, prefix, i);
        assert(prefix[i] == batch[i]);
        assert(point_key(batch.last()) != point_key(batch[i]));
    }
}

/// Keys outside the batch keep their value.
proof fn lemma_untouched<V>(m: Map<(Seq<char>, i64), V>, batch: Seq<StoredPoint<V>>, k: (Seq<char>, i64))
    requires
        forall|j: int| 0 <= j < batch.len() ==> point_key(#[trigger] batch[j]) != k,
    ensures
        apply_batch(m, batch).contains_key(k) == m.contains_key(k),
        m.contains_key(k) ==> apply_batch(m, batch)[k] == m[k],
    decreases batch.len(),
{
    if batch.len() > 0 {
        let prefix = batch.drop_last();
        assert forall|j: int| 0 <= j < prefix.len() implies point_key(#[trigger] prefix[j]) != k by {
            assert(prefix[j] == batch[j]);
        }
        lemma_untouched(m, prefix, k);
    }
}

/// Keys written by the batch hold the value of their last point, whatever was there before.
proof fn lemma_touched<V>(m1: Map<(Seq<char>, i64), V>, m2: Map<(Seq<char>, i64), V>, batch: Seq<StoredPoint<V>>, k: (Seq<char>, i64))
    requires
        exists|j: int| 0 <= j < batch.len() && point_key(#[trigger] batch[j]) == k,
    ensures
        apply_batch(m1, batch).contains_key(k),
        apply_batch(m2, batch).contains_key(k),
        apply_batch(m1, batch)[k] == apply_batch(m2, batch)[k],
    decreases batch.len(),
{
    if point_key(batch.last()) != k {
        let prefix = batch.drop_last();
        let j = choose|j: int| 0 <= j < batch.len() && point_key(#[trigger] batch[j]) == k;
        assert(prefix[j] == batch[j]);
        lemma_touched(m1, m2, prefix, k);
    }
}

/// Writing the same batch twice leaves the store as writing it once.
pub proof fn law_upsert_idempotent<V>(m: Map<(Seq<char>, i64), V>, batch: Seq<StoredPoint<V>>)
    ensures
        apply_batch(apply_batch(m, batch), batch) == apply_batch(m, batch),
{
    let once = apply_batch(m, batch);
    let twice = apply_batch(once, batch);
    assert forall|k: (Seq<char>, i64)| #[trigger] twice.contains_key(k) == once.contains_key(k) by {
        if exists|j: int| 0 <= j < batch.len() && point_key(#[trigger] batch[j]) == k {
            lemma_touched(once, m, batch, k);
        } else {
            lemma_untouched(once, batch, k);
        }
    }
    assert forall|k: (Seq<char>, i64)| #[trigger] twice.contains_key(k) implies twice[k] == once[k] by {
        if exists|j: int| 0 <= j < batch.len() && point_key(#[trigger] batch[j]) == k {
            lemma_touched(once, m, batch, k);
        } else {
            lemma_untouched(once, batch, k);
        }
    }
    assert(twice =~= once);
}

/// Writing an empty batch changes nothing.
pub proof fn law_empty_batch_noop<V>(m: Map<(Seq<char>, i64), V>)
    ensures
        apply_batch(m, Seq::<StoredPoint<V>>::empty()) == m,
{
}

/// Writing a batch of distinct keys again, with some values changed: each
/// of its keys then holds the value of the second write, and no key is added
/// or lost.
pub proof fn law_second_write_wins<V>(m: Map<(Seq<char>, i64), V>, first: Seq<StoredPoint<V>>, second: Seq<StoredPoint<V>>)
    requires
        second.len() == first.len(),
        forall|i: int| 0 <= i < first.len() ==> point_key(#[trigger] second[i]) == point_key(first[i]),
        forall|i: int, j: int| 0 <= i < first.len() && 0 <= j < first.len() && i != j ==> point_key(first[i]) != point_key(first[j]),
    ensures
        forall|i: int| 0 <= i < first.len() ==> {
            &&& #[trigger] apply_batch(apply_batch(m, first), second).contains_key(point_key(first[i]))
            &&& apply_batch(apply_batch(m, first), second)[point_key(first[i])] == second[i].value
        },
        apply_batch(apply_batch(m, first), second).dom() == apply_batch(m, first).dom(),
{
    let once = apply_batch(m, first);
    let twice = apply_batch(once, second);
    assert forall|i: int| 0 <= i < first.len() implies {
        &&& #[trigger] twice.contains_key(point_key(first[i]))
        &&& twice[point_key(first[i])] == second[i].value
    } by {
        assert forall|j: int| i < j < second.len() implies point_key(#[trigger] second[j]) != point_key(second[i]) by {
            assert(point_key(second[j]) == point_key(first[j]));
        }
        law_read_after_upsert(once, second, i);
    }
    assert forall|k: (Seq<char>, i64)| #[trigger] twice.dom().contains(k) == once.dom().contains(k) by {
        if exists|j: int| 0 <= j < second.len() && point_key(#[trigger] second[j]) == k {
            let j = choose|j: int| 0 <= j < second.len() && point_key(#[trigger] second[j]) == k;
            lemma_touched(once, once, second, k);
            assert(point_key(first[j]) == k);
            lemma_touched(m, m, first, k);
        } else {
            lemma_untouched(once, second, k);
        }
    }
    assert(twice.dom() =~= once.dom());
}

} // verus!
