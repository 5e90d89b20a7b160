//! The producer's sweep: which enabled configurations become jobs, given the
//! completeness cache and the live in-flight leases.

use vstd::prelude::*;
use crate::text::same_text;
use crate::job::{CalculationJob, job_fingerprint, job_lease_key};
use crate::cache::{CompletenessCache, lookup_fresh};
use crate::completeness::{CompletenessInfo, MICROS_PER_MINUTE};

verus! {

/// Seconds between two sweeps.
pub const SWEEP_INTERVAL_SECS: u64 = 60;

/// Seconds to wait after the configurations could not be read.
pub const RETRY_DELAY_SECS: u64 = 5;

/// Seconds an in-flight lease lives.
pub const LEASE_TTL_SECS: u64 = 600;

/// Capacity of the job channel.
pub const CHANNEL_CAPACITY: usize = 1000;

/// A fresh record in the cache says the job is complete.
pub open spec fn known_complete(m: Map<Seq<char>, CompletenessInfo>, ttl: i64, now: i64, j: CalculationJob) -> bool {
    lookup_fresh(m, job_fingerprint(j), ttl, now) is Some
        && lookup_fresh(m, job_fingerprint(j), ttl, now)->Some_0.is_complete
}

/// Some job of `s` has lease key `key`.
pub open spec fn has_lease_key(s: Seq<CalculationJob>, key: Seq<char>) -> bool {
    exists|j: int| 0 <= j < s.len() && job_lease_key(s[j]) == key
}

/// The jobs a sweep enqueues, in configuration order: a configuration is
/// skipped when the cache knows it complete, when its lease is live, or when
/// an earlier configuration of the same sweep already took its lease.
pub open spec fn sweep_spec(
    m: Map<Seq<char>, CompletenessInfo>,
    ttl: i64,
    now: i64,
    cfgs: Seq<CalculationJob>,
    leased: Seq<bool>,
) -> Seq<CalculationJob>
    decreases cfgs.len(),
{
    if cfgs.len() == 0 {
        Seq::empty()
    } else {
        let prev = sweep_spec(m, ttl, now, cfgs.drop_last(), leased.take(cfgs.len() - 1));
        let c = cfgs.last();
        if known_complete(m, ttl, now, c) || leased[cfgs.len() - 1] || has_lease_key(prev, job_lease_key(c)) {
            prev
        } else {
            prev.push(c)
        }
    }
}

/// Whether any job of `jobs` has the lease key `key`.
fn contains_lease_key(jobs: &Vec<CalculationJob>, key: &String) -> (r: bool)
    ensures
        r == has_lease_key(jobs@, key@),
{
    let mut i: usize = 0;
    while i < jobs.len()
        invariant
            i <= jobs@.len(),
            forall|j: int| 0 <= j < i ==> job_lease_key(jobs@[j]) != key@,
        decreases jobs@.len() - i,
    {
        let k = jobs[i].cache_key();
        if same_text(k.as_str(), key.as_str()) {
            return true;
        }
        i = i + 1;
    }
    false
}

/// Plans one sweep. `leased[i]` tells whether the lease of `configs[i]` was
/// found live.
pub fn plan_sweep(
    configs: &Vec<CalculationJob>,
    leased: &Vec<bool>,
    cache: &CompletenessCache,
    now: i64,
) -> (r: Vec<CalculationJob>)
    requires
        cache.wf(),
        leased@.len() == configs@.len(),
    ensures
        r@ == sweep_spec(cache@, cache.ttl(), now, configs@, leased@),
{
    let mut out: Vec<CalculationJob> = Vec::new();
    let mut i: usize = 0;
    while i < configs.len()
        invariant
            i <= configs@.len(),
            leased@.len() == configs@.len(),
            cache.wf(),
            out@ == sweep_spec(cache@, cache.ttl(), now, configs@.subrange(0, i as int), leased@.take(i as int)),
        decreases configs@.len() - i,
    {
        proof {
            let pre = configs@.subrange(0, i + 1);
            assert(pre.drop_last() =~= configs@.subrange(0, i as int));
            assert(leased@.take(i + 1).take(i as int) =~= leased@.take(i as int));
        }
        let c = &configs[i];
        let complete = match cache.get_job_at(c, now) {
            Some(info) => info.is_complete,
            None => false,
        };
        let key = c.cache_key();
        if !complete && !leased[i] && !contains_lease_key(&out, &key) {
            out.push(c.clone());
        }
        i = i + 1;
    }
    proof {
        assert(configs@.subrange(0, i as int) =~= configs@);
        assert(leased@.take(i as int) =~= leased@);
    }
    out
}

/// Every job a sweep enqueues comes from a configuration whose lease was
/// not live and which the cache does not know complete; no two of them share
/// a lease key.
pub proof fn law_sweep_enqueues_only_due_jobs(
    m: Map<Seq<char>, CompletenessInfo>,
    ttl: i64,
    now: i64,
    cfgs: Seq<CalculationJob>,
    leased: Seq<bool>,
)
    requires
        leased.len() == cfgs.len(),
    ensures
        forall|j: int| 0 <= j < sweep_spec(m, ttl, now, cfgs, leased).len() ==>
            !known_complete(m, ttl, now, #[trigger] sweep_spec(m, ttl, now, cfgs, leased)[j])
            && exists|i: int| 0 <= i < cfgs.len() && cfgs[i] == sweep_spec(m, ttl, now, cfgs, leased)[j] && !leased[i],
        forall|a: int, b: int|
            0 <= a < b < sweep_spec(m, ttl, now, cfgs, leased).len() ==>
            job_lease_key(sweep_spec(m, ttl, now, cfgs, leased)[a]) != job_lease_key(sweep_spec(m, ttl, now, cfgs, leased)[b]),
    decreases cfgs.len(),
{
    if cfgs.len() > 0 {
        let pc = cfgs.drop_last();
        let pl = leased.take(cfgs.len() - 1);
        law_sweep_enqueues_only_due_jobs(m, ttl, now, pc, pl);
        let prev = sweep_spec(m, ttl, now, pc, pl);
        let cur = sweep_spec(m, ttl, now, cfgs, leased);
        assert forall|j: int| 0 <= j < cur.len() implies
            !known_complete(m, ttl, now, #[trigger] cur[j])
            && exists|i: int| 0 <= i < cfgs.len() && cfgs[i] == cur[j] && !leased[i] by {
            if j < prev.len() {
                assert(cur[j] == prev[j]);
                let i = choose|i: int| 0 <= i < pc.len() && pc[i] == prev[j] && !pl[i];
                assert(cfgs[i] == pc[i]);
                assert(leased[i] == pl[i]);
            } else {
                assert(cfgs[cfgs.len() - 1] == cur[j]);
            }
        }
        assert forall|a: int, b: int| 0 <= a < b < cur.len() implies
            job_lease_key(cur[a]) != job_lease_key(cur[b]) by {
            if b < prev.len() {
                assert(cur[a] == prev[a] && cur[b] == prev[b]);
            } else {
                assert(cur[a] == prev[a]);
                if job_lease_key(cur[a]) == job_lease_key(cur[b]) {
                    assert(has_lease_key(prev, job_lease_key(cfgs.last())));
                }
            }
        }
    }
}

/// Two overlapping sweeps never enqueue the same job: when every lease the
/// first sweep set is still live for the second, the second enqueues no job
/// whose lease key the first already enqueued.
pub proof fn law_overlapping_sweeps_disjoint(
    m1: Map<Seq<char>, CompletenessInfo>,
    m2: Map<Seq<char>, CompletenessInfo>,
    ttl: i64,
    now1: i64,
    now2: i64,
    cfgs1: Seq<CalculationJob>,
    leased1: Seq<bool>,
    cfgs2: Seq<CalculationJob>,
    leased2: Seq<bool>,
)
    requires
        leased1.len() == cfgs1.len(),
        leased2.len() == cfgs2.len(),
        forall|i: int| 0 <= i < cfgs2.len() && has_lease_key(sweep_spec(m1, ttl, now1, cfgs1, leased1), job_lease_key(#[trigger] cfgs2[i]))
            ==> leased2[i],
    ensures
        forall|a: int, b: int|
            0 <= a < sweep_spec(m1, ttl, now1, cfgs1, leased1).len() && 0 <= b < sweep_spec(m2, ttl, now2, cfgs2, leased2).len()
            ==> job_lease_key(sweep_spec(m1, ttl, now1, cfgs1, leased1)[a]) != job_lease_key(sweep_spec(m2, ttl, now2, cfgs2, leased2)[b]),
{
    let s1 = sweep_spec(m1, ttl, now1, cfgs1, leased1);
    let s2 = sweep_spec(m2, ttl, now2, cfgs2, leased2);
    law_sweep_enqueues_only_due_jobs(m2, ttl, now2, cfgs2, leased2);
    assert forall|a: int, b: int| 0 <= a < s1.len() && 0 <= b < s2.len() implies
        job_lease_key(s1[a]) != job_lease_key(s2[b]) by {
        let i = choose|i: int| 0 <= i < cfgs2.len() && cfgs2[i] == s2[b] && !leased2[i];
        if job_lease_key(s1[a]) == job_lease_key(s2[b]) {
            assert(has_lease_key(s1, job_lease_key(cfgs2[i])));
        }
    }
}

/// Some job of `s` has completeness fingerprint `key`.
pub open spec fn has_fingerprint(s: Seq<CalculationJob>, key: Seq<char>) -> bool {
    exists|j: int| 0 <= j < s.len() && job_fingerprint(s[j]) == key
}

/// When the configurations have distinct fingerprints, as the store's
/// uniqueness constraint makes them, a sweep enqueues at most one job per
/// fingerprint.
pub proof fn law_sweep_fingerprints_distinct(
    m: Map<Seq<char>, CompletenessInfo>,
    ttl: i64,
    now: i64,
    cfgs: Seq<CalculationJob>,
    leased: Seq<bool>,
)
    requires
        leased.len() == cfgs.len(),
        forall|a: int, b: int| 0 <= a < cfgs.len() && 0 <= b < cfgs.len() && a != b
            ==> job_fingerprint(cfgs[a]) != job_fingerprint(cfgs[b]),
    ensures
        forall|a: int, b: int|
            0 <= a < sweep_spec(m, ttl, now, cfgs, leased).len() && 0 <= b < sweep_spec(m, ttl, now, cfgs, leased).len() && a != b
            ==> job_fingerprint(sweep_spec(m, ttl, now, cfgs, leased)[a]) != job_fingerprint(sweep_spec(m, ttl, now, cfgs, leased)[b]),
{
    let s = sweep_spec(m, ttl, now, cfgs, leased);
    law_sweep_enqueues_only_due_jobs(m, ttl, now, cfgs, leased);
    assert forall|a: int, b: int| 0 <= a < s.len() && 0 <= b < s.len() && a != b
        implies job_fingerprint(s[a]) != job_fingerprint(s[b]) by {
        let ia = choose|i: int| 0 <= i < cfgs.len() && cfgs[i] == s[a] && !leased[i];
        let ib = choose|i: int| 0 <= i < cfgs.len() && cfgs[i] == s[b] && !leased[i];
        if ia == ib {
            if a < b {
                assert(job_lease_key(s[a]) != job_lease_key(s[b]));
            } else {
                assert(job_lease_key(s[b]) != job_lease_key(s[a]));
            }
        }
    }
}

/// While the leases a sweep set stay live, an overlapping sweep enqueues no
/// job with the fingerprint of a job the first one enqueued.
pub proof fn law_overlapping_sweeps_disjoint_by_fingerprint(
    m1: Map<Seq<char>, CompletenessInfo>,
    m2: Map<Seq<char>, CompletenessInfo>,
    ttl: i64,
    now1: i64,
    now2: i64,
    cfgs1: Seq<CalculationJob>,
    leased1: Seq<bool>,
    cfgs2: Seq<CalculationJob>,
    leased2: Seq<bool>,
)
    requires
        leased1.len() == cfgs1.len(),
        leased2.len() == cfgs2.len(),
        forall|i: int| 0 <= i < cfgs2.len() && has_fingerprint(sweep_spec(m1, ttl, now1, cfgs1, leased1), job_fingerprint(#[trigger] cfgs2[i]))
            ==> leased2[i],
    ensures
        forall|a: int, b: int|
            0 <= a < sweep_spec(m1, ttl, now1, cfgs1, leased1).len() && 0 <= b < sweep_spec(m2, ttl, now2, cfgs2, leased2).len()
            ==> job_fingerprint(sweep_spec(m1, ttl, now1, cfgs1, leased1)[a]) != job_fingerprint(sweep_spec(m2, ttl, now2, cfgs2, leased2)[b]),
{
    let s1 = sweep_spec(m1, ttl, now1, cfgs1, leased1);
    let s2 = sweep_spec(m2, ttl, now2, cfgs2, leased2);
    law_sweep_enqueues_only_due_jobs(m2, ttl, now2, cfgs2, leased2);
    assert forall|a: int, b: int| 0 <= a < s1.len() && 0 <= b < s2.len() implies
        job_fingerprint(s1[a]) != job_fingerprint(s2[b]) by {
        let i = choose|i: int| 0 <= i < cfgs2.len() && cfgs2[i] == s2[b] && !leased2[i];
        if job_fingerprint(s1[a]) == job_fingerprint(s2[b]) {
            assert(has_fingerprint(s1, job_fingerprint(cfgs2[i])));
        }
    }
}

/// A sweep in which every configuration is leased or known complete
/// enqueues nothing.
pub proof fn law_nothing_due_enqueues_nothing(
    m: Map<Seq<char>, CompletenessInfo>,
    ttl: i64,
    now: i64,
    cfgs: Seq<CalculationJob>,
    leased: Seq<bool>,
)
    requires
        leased.len() == cfgs.len(),
        forall|i: int| 0 <= i < cfgs.len() ==> #[trigger] leased[i] || known_complete(m, ttl, now, cfgs[i]),
    ensures
        sweep_spec(m, ttl, now, cfgs, leased).len() == 0,
{
    let s = sweep_spec(m, ttl, now, cfgs, leased);
    law_sweep_enqueues_only_due_jobs(m, ttl, now, cfgs, leased);
    if s.len() > 0 {
        let i = choose|i: int| 0 <= i < cfgs.len() && cfgs[i] == s[0] && !leased[i];
        assert(leased[i] || known_complete(m, ttl, now, cfgs[i]));
    }
}

/// Whether the completeness cache is due for a rebuild: at least the
/// time-to-live has passed since the last one. Times are in microseconds.
pub fn needs_cache_refresh(last_refresh: i64, now: i64, ttl_minutes: i64) -> (r: bool)
    ensures
        r == (now - last_refresh >= ttl_minutes * MICROS_PER_MINUTE),
{
    let t = ttl_minutes as i128;
    proof {
        assert(-9223372036854775808 * 60000000 <= t * 60000000 <= 9223372036854775807 * 60000000) by (nonlinear_arith)
            requires
                -9223372036854775808 <= t <= 9223372036854775807,
        ;
    }
    (now as i128 - last_refresh as i128) >= t * (MICROS_PER_MINUTE as i128)
}

} // verus!
