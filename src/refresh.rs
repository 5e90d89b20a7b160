//! Rebuilding the completeness cache from what the store reports.

use vstd::prelude::*;
use crate::text::same_text;
use crate::job::{CalculationJob, job_fingerprint};
use crate::completeness::{CompletenessInfo, is_derived};
use crate::cache::CompletenessCache;

verus! {

/// The pair `(symbol, interval)` of a job, as text.
pub open spec fn job_pair(j: CalculationJob) -> (Seq<char>, Seq<char>) {
    (j.symbol@, j.interval@)
}

/// The pair of a `(symbol, interval)` entry, as text.
pub open spec fn pair_view(p: (String, String)) -> (Seq<char>, Seq<char>) {
    (p.0@, p.1@)
}

/// The pairs of `out`, as text.
pub open spec fn pairs_view(out: Seq<(String, String)>) -> Seq<(Seq<char>, Seq<char>)> {
    out.map_values(|p: (String, String)| pair_view(p))
}

/// `out` lists, without repetition, exactly the pairs of the first `n` configurations.
pub open spec fn lists_pairs_of(out: Seq<(String, String)>, configs: Seq<CalculationJob>, n: int) -> bool {
    &&& forall|x: int| 0 <= x < n ==> pairs_view(out).contains(job_pair(#[trigger] configs[x]))
    &&& forall|q: int| 0 <= q < out.len() ==> exists|x: int| 0 <= x < n && #[trigger] pairs_view(out)[q] == job_pair(configs[x])
    &&& pairs_view(out).no_duplicates()
}

fn contains_pair(out: &Vec<(String, String)>, c: &CalculationJob) -> (r: bool)
    ensures
        r == pairs_view(out@).contains(job_pair(*c)),
{
    let mut p: usize = 0;
    while p < out.len()
        invariant
            p <= out@.len(),
            forall|q: int| 0 <= q < p ==> pairs_view(out@)[q] != job_pair(*c),
        decreases out@.len() - p,
    {
        if same_text(out[p].0.as_str(), c.symbol.as_str()) && same_text(out[p].1.as_str(), c.interval.as_str()) {
            assert(pairs_view(out@)[p as int] == job_pair(*c));
            return true;
        }
        p = p + 1;
    }
    false
}

proof fn lemma_step(pre: Seq<(String, String)>, post: Seq<(String, String)>, configs: Seq<CalculationJob>, i: int, pushed: bool)
    requires
        0 <= i < configs.len(),
        lists_pairs_of(pre, configs, i),
        pushed ==> !pairs_view(pre).contains(job_pair(configs[i])) && post.len() == pre.len() + 1
            && post.drop_last() == pre && pair_view(post.last()) == job_pair(configs[i]),
        !pushed ==> pairs_view(pre).contains(job_pair(configs[i])) && post == pre,
    ensures
        lists_pairs_of(post, configs, i + 1),
{
    if pushed {
        assert(pairs_view(post) =~= pairs_view(pre).push(job_pair(configs[i])));
        assert forall|x: int| 0 <= x < i + 1 implies pairs_view(post).contains(job_pair(#[trigger] configs[x])) by {
            if x < i {
                let q = choose|q: int| 0 <= q < pairs_view(pre).len() && pairs_view(pre)[q] == job_pair(configs[x]);
                assert(pairs_view(post)[q] == job_pair(configs[x]));
            } else {
                assert(pairs_view(post)[pre.len() as int] == job_pair(configs[x]));
            }
        }
        assert forall|q: int| 0 <= q < post.len() implies exists|x: int| 0 <= x < i + 1 && #[trigger] pairs_view(post)[q] == job_pair(configs[x]) by {
            if q < pre.len() {
                assert(pairs_view(post)[q] == pairs_view(pre)[q]);
                let x = choose|x: int| 0 <= x < i && #[trigger] pairs_view(pre)[q] == job_pair(configs[x]);
            } else {
                assert(pairs_view(post)[q] == job_pair(configs[i]));
            }
        }
        assert forall|a: int, b: int| 0 <= a < pairs_view(post).len() && 0 <= b < pairs_view(post).len() && a != b
            implies pairs_view(post)[a] != pairs_view(post)[b] by {
            if a < pre.len() && b < pre.len() {
                assert(pairs_view(post)[a] == pairs_view(pre)[a] && pairs_view(post)[b] == pairs_view(pre)[b]);
            } else if a < pre.len() {
                assert(pairs_view(post)[a] == pairs_view(pre)[a]);
            } else if b < pre.len() {
                assert(pairs_view(post)[b] == pairs_view(pre)[b]);
            }
        }
    } else {
        assert forall|x: int| 0 <= x < i + 1 implies pairs_view(post).contains(job_pair(#[trigger] configs[x])) by {}
        assert forall|q: int| 0 <= q < post.len() implies exists|x: int| 0 <= x < i + 1 && #[trigger] pairs_view(post)[q] == job_pair(configs[x]) by {
            let x = choose|x: int| 0 <= x < i && #[trigger] pairs_view(pre)[q] == job_pair(configs[x]);
        }
    }
}

/// The distinct `(symbol, interval)` pairs of the configurations, in order
/// of first appearance.
pub fn distinct_pairs(configs: &Vec<CalculationJob>) -> (r: Vec<(String, String)>)
    ensures
        lists_pairs_of(r@, configs@, configs@.len() as int),
{
    let mut out: Vec<(String, String)> = Vec::new();
    let mut i: usize = 0;
    proof {
        assert(pairs_view(out@) =~= Seq::<(Seq<char>, Seq<char>)>::empty());
    }
    while i < configs.len()
        invariant
            i <= configs@.len(),
            lists_pairs_of(out@, configs@, i as int),
        decreases configs@.len() - i,
    {
        let c = &configs[i];
        let ghost pre = out@;
        let found = contains_pair(&out, c);
        if !found {
            out.push((c.symbol.clone(), c.interval.clone()));
            proof {
                assert(out@.drop_last() =~= pre);
            }
        }
        proof {
            lemma_step(pre, out@, configs@, i as int, !found);
        }
        i = i + 1;
    }
    out
}

/// The candle range reported for a pair: the range at the position of the
/// first matching pair, if any.
pub open spec fn range_of(
    pairs: Seq<(String, String)>,
    ranges: Seq<Option<(i64, i64)>>,
    pair: (Seq<char>, Seq<char>),
) -> Option<(i64, i64)>
    decreases pairs.len(),
{
    if pairs.len() == 0 || ranges.len() == 0 {
        None
    } else if pair_view(pairs[0]) == pair {
        ranges[0]
    } else {
        range_of(pairs.drop_first(), ranges.drop_first(), pair)
    }
}

fn find_range(pairs: &Vec<(String, String)>, ranges: &Vec<Option<(i64, i64)>>, job: &CalculationJob) -> (r: Option<(i64, i64)>)
    requires
        pairs@.len() == ranges@.len(),
    ensures
        r == range_of(pairs@, ranges@, job_pair(*job)),
{
    let mut i: usize = 0;
    proof {
        assert(pairs@.subrange(0, pairs@.len() as int) =~= pairs@);
        assert(ranges@.subrange(0, ranges@.len() as int) =~= ranges@);
    }
    while i < pairs.len()
        invariant
            i <= pairs@.len(),
            pairs@.len() == ranges@.len(),
            range_of(pairs@, ranges@, job_pair(*job)) == range_of(
                pairs@.subrange(i as int, pairs@.len() as int),
                ranges@.subrange(i as int, ranges@.len() as int),
                job_pair(*job),
            ),
        decreases pairs@.len() - i,
    {
        proof {
            assert(pairs@.subrange(i as int, pairs@.len() as int).drop_first() =~= pairs@.subrange(i + 1, pairs@.len() as int));
            assert(ranges@.subrange(i as int, ranges@.len() as int).drop_first() =~= ranges@.subrange(i + 1, ranges@.len() as int));
        }
        if same_text(pairs[i].0.as_str(), job.symbol.as_str()) && same_text(pairs[i].1.as_str(), job.interval.as_str()) {
            return ranges[i];
        }
        i = i + 1;
    }
    None
}

impl CompletenessCache {
    /// Stores a freshly derived record for every configuration. `ranges[p]`
    /// is what the store reported for `pairs[p]`, `calculated[i]` what it
    /// reported for `configs[i]`; `None` marks a failed read. Records of
    /// other fingerprints stay as they were.
    pub fn rebuild(
        &mut self,
        configs: &Vec<CalculationJob>,
        pairs: &Vec<(String, String)>,
        ranges: &Vec<Option<(i64, i64)>>,
        calculated: &Vec<Option<(Option<i64>, i64)>>,
        now: i64,
    )
        requires
            old(self).wf(),
            pairs@.len() == ranges@.len(),
            calculated@.len() == configs@.len(),
        ensures
            final(self).wf(),
            final(self).ttl() == old(self).ttl(),
            forall|i: int| 0 <= i < configs@.len() ==> final(self)@.contains_key(job_fingerprint(#[trigger] configs@[i])),
            forall|i: int| 0 <= i < configs@.len()
                && (forall|j: int| i < j < configs@.len() ==> job_fingerprint(configs@[j]) != job_fingerprint(configs@[i]))
                ==> is_derived(
                    final(self)@[job_fingerprint(#[trigger] configs@[i])],
                    configs@[i],
                    now,
                    range_of(pairs@, ranges@, job_pair(configs@[i])),
                    calculated@[i],
                ),
            forall|k: Seq<char>| (forall|i: int| 0 <= i < configs@.len() ==> job_fingerprint(configs@[i]) != k)
                ==> (#[trigger] final(self)@.contains_key(k) == old(self)@.contains_key(k)
                    && (old(self)@.contains_key(k) ==> final(self)@[k] == old(self)@[k])),
    {
        let ghost start = self@;
        let mut i: usize = 0;
        while i < configs.len()
            invariant
                i <= configs@.len(),
                self.wf(),
                self.ttl() == old(self).ttl(),
                pairs@.len() == ranges@.len(),
                calculated@.len() == configs@.len(),
                forall|x: int| 0 <= x < i ==> self@.contains_key(job_fingerprint(#[trigger] configs@[x])),
                forall|x: int| 0 <= x < i
                    && (forall|j: int| x < j < i ==> job_fingerprint(configs@[j]) != job_fingerprint(configs@[x]))
                    ==> is_derived(
                        self@[job_fingerprint(#[trigger] configs@[x])],
                        configs@[x],
                        now,
                        range_of(pairs@, ranges@, job_pair(configs@[x])),
                        calculated@[x],
                    ),
                forall|k: Seq<char>| (forall|x: int| 0 <= x < i ==> job_fingerprint(configs@[x]) != k)
                    ==> (#[trigger] self@.contains_key(k) == start.contains_key(k)
                        && (start.contains_key(k) ==> self@[k] == start[k])),
            decreases configs@.len() - i,
        {
            let c = &configs[i];
            let range = find_range(pairs, ranges, c);
            let info = CompletenessInfo::derive(c, now, range, calculated[i]);
            let ghost pre = self@;
            self.update(info);
            i = i + 1;
            proof {
                let fi = job_fingerprint(configs@[i - 1]);
                assert forall|x: int| 0 <= x < i implies self@.contains_key(job_fingerprint(#[trigger] configs@[x])) by {
                    if x < i - 1 {
                        assert(pre.contains_key(job_fingerprint(configs@[x])));
                    }
                }
                assert forall|x: int| 0 <= x < i
                    && (forall|j: int| x < j < i ==> job_fingerprint(configs@[j]) != job_fingerprint(configs@[x]))
                    implies is_derived(
                        self@[job_fingerprint(#[trigger] configs@[x])],
                        configs@[x],
                        now,
                        range_of(pairs@, ranges@, job_pair(configs@[x])),
                        calculated@[x],
                    ) by {
                    if x < i - 1 {
                        assert(job_fingerprint(configs@[i - 1]) != job_fingerprint(configs@[x]));
                        assert forall|j: int| x < j < i - 1 implies job_fingerprint(configs@[j]) != job_fingerprint(configs@[x]) by {
                            assert(x < j < i);
                        }
                    }
                }
                assert forall|k: Seq<char>| (forall|x: int| 0 <= x < i ==> job_fingerprint(configs@[x]) != k)
                    implies (#[trigger] self@.contains_key(k) == start.contains_key(k)
                        && (start.contains_key(k) ==> self@[k] == start[k])) by {
                    let last = configs@[i - 1];
                    assert(job_fingerprint(last) != k);
                    assert(forall|x: int| 0 <= x < i - 1 ==> job_fingerprint(configs@[x]) != k);
                    assert(pre.contains_key(k) == start.contains_key(k));
                    assert(start.contains_key(k) ==> pre[k] == start[k]);
                    assert(self@ == pre.insert(job_fingerprint(last), info));
                }
            }
        }
    }
}

} // verus!
