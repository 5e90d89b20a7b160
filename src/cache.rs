//! The completeness cache: freshness records keyed by job fingerprint.

use vstd::prelude::*;
use crate::clock::now_micros;
use crate::text::same_text;
use crate::job::{CalculationJob, job_fingerprint};
use crate::completeness::{CompletenessInfo, info_key, fresh};

verus! {

/// Default time-to-live of a record, in minutes.
pub const DEFAULT_TTL_MINUTES: i64 = 30;

/// Records keyed by fingerprint. Each key occurs once.
pub struct CompletenessCache {
    entries: Vec<(String, CompletenessInfo)>,
    ttl_minutes: i64,
}

/// The number of complete records among `s`.
pub open spec fn count_complete(s: Seq<(String, CompletenessInfo)>) -> nat
    decreases s.len(),
{
    if s.len() == 0 {
        0
    } else {
        count_complete(s.drop_last()) + if s.last().1.is_complete { 1nat } else { 0nat }
    }
}

/// The result of looking `key` up at time `now`: the record if present and fresh.
pub open spec fn lookup_fresh(m: Map<Seq<char>, CompletenessInfo>, key: Seq<char>, ttl: i64, now: i64) -> Option<CompletenessInfo> {
    if m.contains_key(key) && fresh(m[key], ttl, now) {
        Some(m[key])
    } else {
        None
    }
}

impl CompletenessCache {
    /// The records by key.
    pub closed spec fn view(&self) -> Map<Seq<char>, CompletenessInfo> {
        Map::new(
            |k: Seq<char>| exists|i: int| 0 <= i < self.entries@.len() && self.entries@[i].0@ == k,
            |k: Seq<char>| self.entries@[choose|i: int| 0 <= i < self.entries@.len() && self.entries@[i].0@ == k].1,
        )
    }

    /// Each stored key is its record's fingerprint and occurs once.
    pub closed spec fn wf(&self) -> bool {
        &&& forall|i: int| 0 <= i < self.entries@.len() ==> #[trigger] self.entries@[i].0@ == info_key(self.entries@[i].1)
        &&& forall|i: int, j: int|
            0 <= i < self.entries@.len() && 0 <= j < self.entries@.len() && i != j ==> self.entries@[i].0@ != self.entries@[j].0@
    }

    /// The time-to-live of records, in minutes.
    pub closed spec fn ttl(&self) -> i64 {
        self.ttl_minutes
    }

    /// The number of records.
    pub closed spec fn size(&self) -> nat {
        self.entries@.len()
    }

    /// The number of complete records.
    pub closed spec fn complete_count(&self) -> nat {
        count_complete(self.entries@)
    }

    proof fn lemma_index(&self, i: int)
        requires
            self.wf(),
            0 <= i < self.entries@.len(),
        ensures
            self@.contains_key(self.entries@[i].0@),
            self@[self.entries@[i].0@] == self.entries@[i].1,
            self.entries@[i].0@ == info_key(self.entries@[i].1),
    {
        let k = self.entries@[i].0@;
        assert(self.entries@[i].0@ == k);
        let j = choose|j: int| 0 <= j < self.entries@.len() && self.entries@[j].0@ == k;
        assert(j == i);
    }

    proof fn lemma_size_is_key_count(&self)
        requires
            self.wf(),
        ensures
            self@.dom().finite(),
            self.size() == self@.dom().len(),
    {
        lemma_keys_of_len(self.entries@);
        assert(self@.dom() =~= keys_of(self.entries@));
    }

    proof fn lemma_complete_count(&self)
        requires
            self.wf(),
        ensures
            self.complete_count() == self@.dom().filter(|k: Seq<char>| self@[k].is_complete).len(),
    {
        lemma_complete_keys_len(self.entries@);
        let f = |k: Seq<char>| self@[k].is_complete;
        assert forall|k: Seq<char>| #[trigger] self@.dom().filter(f).contains(k) == complete_keys_of(self.entries@).contains(k) by {
            if self@.dom().contains(k) {
                let i = choose|i: int| 0 <= i < self.entries@.len() && self.entries@[i].0@ == k;
                self.lemma_index(i);
            }
            if complete_keys_of(self.entries@).contains(k) {
                let i = choose|i: int| 0 <= i < self.entries@.len() && self.entries@[i].0@ == k && self.entries@[i].1.is_complete;
                self.lemma_index(i);
            }
        }
        assert(self@.dom().filter(f) =~= complete_keys_of(self.entries@));
    }

    proof fn lemma_keys_consistent(&self)
        requires
            self.wf(),
        ensures
            forall|k: Seq<char>| #[trigger] self@.contains_key(k) ==> info_key(self@[k]) == k,
    {
        assert forall|k: Seq<char>| #[trigger] self@.contains_key(k) implies info_key(self@[k]) == k by {
            let i = choose|i: int| 0 <= i < self.entries@.len() && self.entries@[i].0@ == k;
            self.lemma_index(i);
        }
    }

    /// An empty cache whose records live `ttl_minutes`.
    pub fn new(ttl_minutes: i64) -> (r: Self)
        ensures
            r.wf(),
            r@ == Map::<Seq<char>, CompletenessInfo>::empty(),
            r.ttl() == ttl_minutes,
            r.size() == 0,
    {
        let r = CompletenessCache { entries: Vec::new(), ttl_minutes };
        assert(r@ =~= Map::<Seq<char>, CompletenessInfo>::empty());
        r
    }

    /// An empty cache with the default time-to-live.
    pub fn default_cache() -> (r: Self)
        ensures
            r.wf(),
            r@ == Map::<Seq<char>, CompletenessInfo>::empty(),
            r.ttl() == DEFAULT_TTL_MINUTES,
    {
        CompletenessCache::new(DEFAULT_TTL_MINUTES)
    }

    /// The time-to-live of records, in minutes.
    pub fn ttl_minutes(&self) -> (r: i64)
        ensures
            r == self.ttl(),
    {
        self.ttl_minutes
    }

    fn find(&self, key: &str) -> (r: Option<usize>)
        requires
            self.wf(),
        ensures
            r is None ==> !self@.contains_key(key@),
            r is Some ==> r->Some_0 < self.entries@.len() && self.entries@[r->Some_0 as int].0@ == key@,
    {
        let mut i: usize = 0;
        while i < self.entries.len()
            invariant
                i <= self.entries@.len(),
                forall|j: int| 0 <= j < i ==> self.entries@[j].0@ != key@,
            decreases self.entries@.len() - i,
        {
            if same_text(self.entries[i].0.as_str(), key) {
                return Some(i);
            }
            i = i + 1;
        }
        None
    }

    /// The fresh record stored under `key` at time `now`, if any.
    pub fn get_at(&self, key: &str, now: i64) -> (r: Option<CompletenessInfo>)
        requires
            self.wf(),
        ensures
            r == lookup_fresh(self@, key@, self.ttl(), now),
    {
        match self.find(key) {
            None => None,
            Some(i) => {
                proof {
                    self.lemma_index(i as int);
                }
                let info = &self.entries[i].1;
                if info.is_valid_at(self.ttl_minutes, now) {
                    Some(info.clone())
                } else {
                    None
                }
            },
        }
    }

    /// The fresh record of a job at time `now`, if any.
    pub fn get_job_at(&self, job: &CalculationJob, now: i64) -> (r: Option<CompletenessInfo>)
        requires
            self.wf(),
        ensures
            r == lookup_fresh(self@, job_fingerprint(*job), self.ttl(), now),
    {
        let key = job.fingerprint();
        self.get_at(key.as_str(), now)
    }

    /// The fresh record of a job now, if any.
    pub fn get(&self, job: &CalculationJob) -> (r: Option<CompletenessInfo>)
        requires
            self.wf(),
        ensures
            r is Some ==> self@.contains_key(job_fingerprint(*job)) && r->Some_0 == self@[job_fingerprint(*job)],
            !self@.contains_key(job_fingerprint(*job)) ==> r is None,
    {
        self.get_job_at(job, now_micros())
    }

    /// Stores `info` under its fingerprint, replacing any earlier record.
    pub fn update(&mut self, info: CompletenessInfo)
        requires
            old(self).wf(),
        ensures
            final(self).wf(),
            final(self)@ == old(self)@.insert(info_key(info), info),
            final(self).ttl() == old(self).ttl(),
    {
        let key = info.cache_key();
        let ghost k = key@;
        let ghost old_map = self@;
        proof {
            self.lemma_keys_consistent();
        }
        match self.find(key.as_str()) {
            Some(i) => {
                let ghost pre = self.entries@;
                self.entries.set(i, (key, info));
                proof {
                    assert forall|a: int| 0 <= a < self.entries@.len() implies #[trigger] self.entries@[a].0@ == info_key(self.entries@[a].1) by {
                        if a != i {
                            assert(self.entries@[a] == pre[a]);
                        }
                    }
                    assert forall|kk: Seq<char>| #[trigger] self@.contains_key(kk) == old_map.insert(k, info).contains_key(kk) by {
                        if kk != k {
                            if self@.contains_key(kk) {
                                let j = choose|j: int| 0 <= j < self.entries@.len() && self.entries@[j].0@ == kk;
                                assert(pre[j].0@ == kk);
                            }
                            if old_map.contains_key(kk) {
                                let j = choose|j: int| 0 <= j < pre.len() && pre[j].0@ == kk;
                                assert(j != i);
                                assert(self.entries@[j].0@ == kk);
                            }
                        } else {
                            assert(self.entries@[i as int].0@ == k);
                        }
                    }
                    assert forall|kk: Seq<char>| #[trigger] self@.contains_key(kk) implies self@[kk] == old_map.insert(k, info)[kk] by {
                        let j = choose|j: int| 0 <= j < self.entries@.len() && self.entries@[j].0@ == kk;
                        self.lemma_index(j);
                        if kk == k {
                            assert(j == i);
                        } else {
                            assert(j != i);
                            assert(pre[j] == self.entries@[j]);
                            assert(old_map[kk] == pre[j].1) by {
                                let jj = choose|jj: int| 0 <= jj < pre.len() && pre[jj].0@ == kk;
                                assert(pre[jj].0@ == kk);
                                assert(jj == j);
                            }
                        }
                    }
                    assert(self@ =~= old_map.insert(k, info));
                }
            },
            None => {
                let ghost pre = self.entries@;
                self.entries.push((key, info));
                proof {
                    let n = pre.len() as int;
                    assert forall|a: int| 0 <= a < self.entries@.len() implies #[trigger] self.entries@[a].0@ == info_key(self.entries@[a].1) by {
                        if a < n {
                            assert(self.entries@[a] == pre[a]);
                        }
                    }
                    assert forall|a: int, b: int|
                        0 <= a < self.entries@.len() && 0 <= b < self.entries@.len() && a != b
                        implies self.entries@[a].0@ != self.entries@[b].0@ by {
                        if a == n {
                            assert(self.entries@[b] == pre[b]);
                            assert(!old_map.contains_key(k));
                            if pre[b].0@ == k {
                                assert(old_map.contains_key(k));
                            }
                        } else if b == n {
                            assert(self.entries@[a] == pre[a]);
                            if pre[a].0@ == k {
                                assert(old_map.contains_key(k));
                            }
                        }
                    }
                    assert forall|kk: Seq<char>| #[trigger] self@.contains_key(kk) == old_map.insert(k, info).contains_key(kk) by {
                        if kk != k {
                            if self@.contains_key(kk) {
                                let j = choose|j: int| 0 <= j < self.entries@.len() && self.entries@[j].0@ == kk;
                                assert(j != n);
                                assert(pre[j].0@ == kk);
                            }
                            if old_map.contains_key(kk) {
                                let j = choose|j: int| 0 <= j < pre.len() && pre[j].0@ == kk;
                                assert(self.entries@[j].0@ == kk);
                            }
                        } else {
                            assert(self.entries@[n].0@ == k);
                        }
                    }
                    assert forall|kk: Seq<char>| #[trigger] self@.contains_key(kk) implies self@[kk] == old_map.insert(k, info)[kk] by {
                        let j = choose|j: int| 0 <= j < self.entries@.len() && self.entries@[j].0@ == kk;
                        self.lemma_index(j);
                        if kk == k {
                            assert(j == n);
                        } else {
                            assert(j != n);
                            assert(pre[j] == self.entries@[j]);
                            assert(old_map[kk] == pre[j].1) by {
                                let jj = choose|jj: int| 0 <= jj < pre.len() && pre[jj].0@ == kk;
                                assert(pre[jj].0@ == kk);
                                assert(self.entries@[jj] == pre[jj]);
                                assert(jj == j);
                            }
                        }
                    }
                    assert(self@ =~= old_map.insert(k, info));
                }
            },
        }
    }

    /// Drops the record of a job, if any.
    pub fn remove(&mut self, job: &CalculationJob)
        requires
            old(self).wf(),
        ensures
            final(self).wf(),
            final(self)@ == old(self)@.remove(job_fingerprint(*job)),
            final(self).ttl() == old(self).ttl(),
    {
        let key = job.fingerprint();
        let ghost k = key@;
        let ghost old_map = self@;
        match self.find(key.as_str()) {
            None => {
                assert(self@ =~= old_map.remove(k));
            },
            Some(i) => {
                let ghost pre = self.entries@;
                let _gone = self.entries.remove(i);
                proof {
                    let n = pre.len() as int;
                    assert forall|a: int| 0 <= a < self.entries@.len() implies #[trigger] self.entries@[a].0@ == info_key(self.entries@[a].1) by {
                        if a < i {
                            assert(self.entries@[a] == pre[a]);
                        } else {
                            assert(self.entries@[a] == pre[a + 1]);
                        }
                    }
                    assert forall|a: int, b: int|
                        0 <= a < self.entries@.len() && 0 <= b < self.entries@.len() && a != b
                        implies self.entries@[a].0@ != self.entries@[b].0@ by {
                        let pa = if a < i { a } else { a + 1 };
                        let pb = if b < i { b } else { b + 1 };
                        assert(self.entries@[a] == pre[pa]);
                        assert(self.entries@[b] == pre[pb]);
                    }
                    assert forall|kk: Seq<char>| #[trigger] self@.contains_key(kk) == old_map.remove(k).contains_key(kk) by {
                        if self@.contains_key(kk) {
                            let j = choose|j: int| 0 <= j < self.entries@.len() && self.entries@[j].0@ == kk;
                            let pj = if j < i { j } else { j + 1 };
                            assert(self.entries@[j] == pre[pj]);
                            assert(pre[pj].0@ == kk);
                            assert(pj != i);
                        }
                        if old_map.contains_key(kk) && kk != k {
                            let j = choose|j: int| 0 <= j < pre.len() && pre[j].0@ == kk;
                            assert(j != i);
                            let nj = if j < i { j } else { j - 1 };
                            assert(self.entries@[nj] == pre[j]);
                        }
                    }
                    assert forall|kk: Seq<char>| #[trigger] self@.contains_key(kk) implies self@[kk] == old_map.remove(k)[kk] by {
                        let j = choose|j: int| 0 <= j < self.entries@.len() && self.entries@[j].0@ == kk;
                        let pj = if j < i { j } else { j + 1 };
                        assert(self.entries@[j] == pre[pj]);
                        self.lemma_index(j);
                        assert(old_map[kk] == pre[pj].1) by {
                            let jj = choose|jj: int| 0 <= jj < pre.len() && pre[jj].0@ == kk;
                            assert(pre[jj].0@ == kk);
                            assert(jj == pj);
                        }
                    }
                    assert(self@ =~= old_map.remove(k));
                }
            },
        }
    }

    /// Drops every record.
    pub fn clear(&mut self)
        requires
            old(self).wf(),
        ensures
            final(self).wf(),
            final(self)@ == Map::<Seq<char>, CompletenessInfo>::empty(),
            final(self).ttl() == old(self).ttl(),
            final(self).size() == 0,
    {
        self.entries = Vec::new();
        assert(self@ =~= Map::<Seq<char>, CompletenessInfo>::empty());
    }

    /// `(total, complete, incomplete)` record counts.
    pub fn get_stats(&self) -> (r: (usize, usize, usize))
        requires
            self.wf(),
        ensures
            r.0 == self.size(),
            r.0 == self@.dom().len(),
            r.1 == self.complete_count(),
            r.1 == self@.dom().filter(|k: Seq<char>| self@[k].is_complete).len(),
            r.0 == r.1 + r.2,
    {
        proof {
            self.lemma_size_is_key_count();
            self.lemma_complete_count();
        }
        let mut complete: usize = 0;
        let mut i: usize = 0;
        while i < self.entries.len()
            invariant
                i <= self.entries@.len(),
                complete == count_complete(self.entries@.subrange(0, i as int)),
                complete <= i,
            decreases self.entries@.len() - i,
        {
            proof {
                assert(self.entries@.subrange(0, i + 1).drop_last() =~= self.entries@.subrange(0, i as int));
            }
            if self.entries[i].1.is_complete {
                complete = complete + 1;
            }
            i = i + 1;
        }
        proof {
            assert(self.entries@.subrange(0, i as int) =~= self.entries@);
        }
        let total = self.entries.len();
        (total, complete, total - complete)
    }

    /// Jobs for every fresh, incomplete record at time `now`: one per such
    /// record, carrying its fields, and none for any other record.
    pub fn get_incomplete_jobs_at(&self, now: i64) -> (r: Vec<CalculationJob>)
        requires
            self.wf(),
        ensures
            forall|j: int| 0 <= j < r@.len() ==> {
                let k = job_fingerprint(#[trigger] r@[j]);
                &&& self@.contains_key(k)
                &&& !self@[k].is_complete
                &&& fresh(self@[k], self.ttl(), now)
                &&& r@[j] == job_of_info(self@[k])
            },
            forall|k: Seq<char>| #[trigger] self@.contains_key(k) && !self@[k].is_complete && fresh(self@[k], self.ttl(), now)
                ==> exists|j: int| 0 <= j < r@.len() && job_fingerprint(r@[j]) == k,
            forall|a: int, b: int| 0 <= a < r@.len() && 0 <= b < r@.len() && a != b
                ==> job_fingerprint(r@[a]) != job_fingerprint(r@[b]),
    {
        let mut out: Vec<CalculationJob> = Vec::new();
        let mut i: usize = 0;
        while i < self.entries.len()
            invariant
                i <= self.entries@.len(),
                self.wf(),
                forall|j: int| 0 <= j < out@.len() ==> {
                    let k = job_fingerprint(#[trigger] out@[j]);
                    &&& self@.contains_key(k)
                    &&& !self@[k].is_complete
                    &&& fresh(self@[k], self.ttl_minutes, now)
                    &&& out@[j] == job_of_info(self@[k])
                    &&& exists|x: int| 0 <= x < i && self.entries@[x].0@ == k
                },
                forall|x: int| 0 <= x < i && !self.entries@[x].1.is_complete && fresh(self.entries@[x].1, self.ttl_minutes, now)
                    ==> exists|j: int| 0 <= j < out@.len() && job_fingerprint(out@[j]) == #[trigger] self.entries@[x].0@,
                forall|a: int, b: int| 0 <= a < out@.len() && 0 <= b < out@.len() && a != b
                    ==> job_fingerprint(out@[a]) != job_fingerprint(out@[b]),
            decreases self.entries@.len() - i,
        {
            let info = &self.entries[i].1;
            let ghost pre = out@;
            proof {
                self.lemma_index(i as int);
            }
            if !info.is_complete && info.is_valid_at(self.ttl_minutes, now) {
                let job = job_of(info);
                out.push(job);
                proof {
                    let k = self.entries@[i as int].0@;
                    assert(job_fingerprint(out@[pre.len() as int]) == k);
                    assert forall|j: int| 0 <= j < pre.len() implies job_fingerprint(#[trigger] out@[j]) != k by {
                        assert(out@[j] == pre[j]);
                        let x = choose|x: int| 0 <= x < i && self.entries@[x].0@ == job_fingerprint(pre[j]);
                    }
                    assert forall|a: int, b: int| 0 <= a < out@.len() && 0 <= b < out@.len() && a != b
                        implies job_fingerprint(out@[a]) != job_fingerprint(out@[b]) by {
                        if a < pre.len() && b < pre.len() {
                            assert(out@[a] == pre[a] && out@[b] == pre[b]);
                        }
                    }
                    assert forall|j: int| 0 <= j < out@.len() implies {
                        let kk = job_fingerprint(#[trigger] out@[j]);
                        &&& self@.contains_key(kk)
                        &&& !self@[kk].is_complete
                        &&& fresh(self@[kk], self.ttl_minutes, now)
                        &&& out@[j] == job_of_info(self@[kk])
                        &&& exists|x: int| 0 <= x < i + 1 && self.entries@[x].0@ == kk
                    } by {
                        if j < pre.len() {
                            assert(out@[j] == pre[j]);
                        } else {
                            assert(self.entries@[i as int].0@ == k);
                        }
                    }
                    assert forall|x: int| 0 <= x < i + 1 && !self.entries@[x].1.is_complete && fresh(self.entries@[x].1, self.ttl_minutes, now)
                        implies exists|j: int| 0 <= j < out@.len() && job_fingerprint(out@[j]) == #[trigger] self.entries@[x].0@ by {
                        if x < i {
                            let j = choose|j: int| 0 <= j < pre.len() && job_fingerprint(pre[j]) == self.entries@[x].0@;
                            assert(out@[j] == pre[j]);
                        } else {
                            assert(job_fingerprint(out@[pre.len() as int]) == self.entries@[x].0@);
                        }
                    }
                }
            } else {
                proof {
                    assert forall|j: int| 0 <= j < out@.len() implies {
                        let kk = job_fingerprint(#[trigger] out@[j]);
                        exists|x: int| 0 <= x < i + 1 && self.entries@[x].0@ == kk
                    } by {
                        let kk = job_fingerprint(out@[j]);
                        let x = choose|x: int| 0 <= x < i && self.entries@[x].0@ == kk;
                    }
                }
            }
            i = i + 1;
        }
        proof {
            assert forall|k: Seq<char>| #[trigger] self@.contains_key(k) && !self@[k].is_complete && fresh(self@[k], self.ttl_minutes, now)
                implies exists|j: int| 0 <= j < out@.len() && job_fingerprint(out@[j]) == k by {
                let x = choose|x: int| 0 <= x < self.entries@.len() && self.entries@[x].0@ == k;
                self.lemma_index(x);
                assert(self.entries@[x].0@ == k);
            }
        }
        out
    }

    /// Jobs for every fresh, incomplete record now.
    pub fn get_incomplete_jobs(&self) -> (r: Vec<CalculationJob>)
        requires
            self.wf(),
        ensures
            forall|j: int| 0 <= j < r@.len() ==> {
                let k = job_fingerprint(#[trigger] r@[j]);
                &&& self@.contains_key(k)
                &&& !self@[k].is_complete
                &&& r@[j] == job_of_info(self@[k])
            },
            forall|a: int, b: int| 0 <= a < r@.len() && 0 <= b < r@.len() && a != b
                ==> job_fingerprint(r@[a]) != job_fingerprint(r@[b]),
    {
        self.get_incomplete_jobs_at(now_micros())
    }

    /// The stored entries, in storage order.
    pub closed spec fn entries_seq(&self) -> Seq<(String, CompletenessInfo)> {
        self.entries@
    }
}

/// The job a record stands for.
pub open spec fn job_of_info(i: CompletenessInfo) -> CalculationJob {
    CalculationJob {
        symbol: i.symbol,
        interval: i.interval,
        indicator_type: i.indicator_type,
        indicator_name: i.indicator_name,
        parameters: i.parameters,
    }
}

fn job_of(i: &CompletenessInfo) -> (r: CalculationJob)
    ensures
        r == job_of_info(*i),
        job_fingerprint(r) == info_key(*i),
{
    CalculationJob {
        symbol: i.symbol.clone(),
        interval: i.interval.clone(),
        indicator_type: i.indicator_type,
        indicator_name: i.indicator_name.clone(),
        parameters: i.parameters.clone(),
    }
}

/// The cache's counts always split the records into complete and incomplete
/// ones: the total is the number of fingerprints held, and the complete ones
/// are among them.
pub proof fn law_stats_partition(c: &CompletenessCache)
    requires
        c.wf(),
    ensures
        c.size() == c@.dom().len(),
        c@.dom().finite(),
        c.complete_count() <= c.size(),
        c.complete_count() == c@.dom().filter(|k: Seq<char>| c@[k].is_complete).len(),
{
    lemma_count_complete_bounded(c.entries_seq());
    c.lemma_size_is_key_count();
    c.lemma_complete_count();
}

/// The keys held by the entries.
pub open spec fn keys_of(s: Seq<(String, CompletenessInfo)>) -> Set<Seq<char>> {
    Set::new(|k: Seq<char>| exists|i: int| 0 <= i < s.len() && s[i].0@ == k)
}

/// The keys of the complete records held by the entries.
pub open spec fn complete_keys_of(s: Seq<(String, CompletenessInfo)>) -> Set<Seq<char>> {
    Set::new(|k: Seq<char>| exists|i: int| 0 <= i < s.len() && s[i].0@ == k && s[i].1.is_complete)
}

proof fn lemma_complete_keys_len(s: Seq<(String, CompletenessInfo)>)
    requires
        forall|i: int, j: int| 0 <= i < s.len() && 0 <= j < s.len() && i != j ==> s[i].0@ != s[j].0@,
    ensures
        complete_keys_of(s).finite(),
        complete_keys_of(s).len() == count_complete(s),
    decreases s.len(),
{
    if s.len() == 0 {
        assert(complete_keys_of(s) =~= Set::<Seq<char>>::empty());
    } else {
        let p = s.drop_last();
        assert forall|i: int, j: int| 0 <= i < p.len() && 0 <= j < p.len() && i != j implies p[i].0@ != p[j].0@ by {
            assert(p[i] == s[i] && p[j] == s[j]);
        }
        lemma_complete_keys_len(p);
        let k = s.last().0@;
        if complete_keys_of(p).contains(k) {
            let i = choose|i: int| 0 <= i < p.len() && p[i].0@ == k && p[i].1.is_complete;
            assert(p[i] == s[i]);
            assert(s[i].0@ == s[s.len() - 1].0@);
        }
        if s.last().1.is_complete {
            assert forall|x: Seq<char>| #[trigger] complete_keys_of(s).contains(x) == complete_keys_of(p).insert(k).contains(x) by {
                if complete_keys_of(p).contains(x) {
                    let i = choose|i: int| 0 <= i < p.len() && p[i].0@ == x && p[i].1.is_complete;
                    assert(s[i] == p[i]);
                }
                if complete_keys_of(s).contains(x) && x != k {
                    let i = choose|i: int| 0 <= i < s.len() && s[i].0@ == x && s[i].1.is_complete;
                    assert(p[i] == s[i]);
                }
                if x == k {
                    assert(s[s.len() - 1].0@ == k);
                }
            }
            assert(complete_keys_of(s) =~= complete_keys_of(p).insert(k));
        } else {
            assert forall|x: Seq<char>| #[trigger] complete_keys_of(s).contains(x) == complete_keys_of(p).contains(x) by {
                if complete_keys_of(p).contains(x) {
                    let i = choose|i: int| 0 <= i < p.len() && p[i].0@ == x && p[i].1.is_complete;
                    assert(s[i] == p[i]);
                }
                if complete_keys_of(s).contains(x) {
                    let i = choose|i: int| 0 <= i < s.len() && s[i].0@ == x && s[i].1.is_complete;
                    assert(i != s.len() - 1);
                    assert(p[i] == s[i]);
                }
            }
            assert(complete_keys_of(s) =~= complete_keys_of(p));
        }
    }
}

proof fn lemma_keys_of_len(s: Seq<(String, CompletenessInfo)>)
    requires
        forall|i: int, j: int| 0 <= i < s.len() && 0 <= j < s.len() && i != j ==> s[i].0@ != s[j].0@,
    ensures
        keys_of(s).finite(),
        keys_of(s).len() == s.len(),
    decreases s.len(),
{
    if s.len() == 0 {
        assert(keys_of(s) =~= Set::<Seq<char>>::empty());
    } else {
        let p = s.drop_last();
        assert forall|i: int, j: int| 0 <= i < p.len() && 0 <= j < p.len() && i != j implies p[i].0@ != p[j].0@ by {
            assert(p[i] == s[i] && p[j] == s[j]);
        }
        lemma_keys_of_len(p);
        let k = s.last().0@;
        assert forall|x: Seq<char>| #[trigger] keys_of(s).contains(x) == keys_of(p).insert(k).contains(x) by {
            if keys_of(p).contains(x) {
                let i = choose|i: int| 0 <= i < p.len() && p[i].0@ == x;
                assert(s[i] == p[i]);
            }
            if keys_of(s).contains(x) && x != k {
                let i = choose|i: int| 0 <= i < s.len() && s[i].0@ == x;
                assert(i != s.len() - 1);
                assert(p[i] == s[i]);
            }
            if x == k {
                assert(s[s.len() - 1].0@ == k);
            }
        }
        assert(keys_of(s) =~= keys_of(p).insert(k));
        if keys_of(p).contains(k) {
            let i = choose|i: int| 0 <= i < p.len() && p[i].0@ == k;
            assert(p[i] == s[i]);
            assert(s[i].0@ == s[s.len() - 1].0@);
        }
    }
}

proof fn lemma_count_complete_bounded(s: Seq<(String, CompletenessInfo)>)
    ensures
        count_complete(s) <= s.len(),
    decreases s.len(),
{
    if s.len() > 0 {
        lemma_count_complete_bounded(s.drop_last());
    }
}

} // verus!
