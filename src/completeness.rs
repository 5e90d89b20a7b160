//! Freshness bookkeeping: for each job fingerprint, how far its stored
//! results reach compared with the available candles.

use vstd::prelude::*;
use crate::clock::now_micros;
use crate::job::{CalculationJob, IndicatorType, fingerprint_text, job_fingerprint, fingerprint_of};

verus! {

/// Microseconds in a minute.
pub const MICROS_PER_MINUTE: i64 = 60000000;

/// Results within a day of the latest candle count as up to date.
pub const FRESH_WINDOW_MICROS: i64 = 86400000000;

/// Coverage, in percent, from which a series counts as complete.
pub const COMPLETE_COVERAGE: i32 = 95;

/// The freshness record of one job.
#[derive(Debug)]
pub struct CompletenessInfo {
    pub symbol: String,
    pub interval: String,
    pub indicator_type: IndicatorType,
    pub indicator_name: String,
    pub parameters: String,
    pub last_calculated_time: Option<i64>,
    pub first_candle_time: Option<i64>,
    pub last_candle_time: Option<i64>,
    pub data_count: i64,
    pub coverage_percent: i32,
    pub is_complete: bool,
    pub updated_at: i64,
}

impl Clone for CompletenessInfo {
    fn clone(&self) -> (r: Self)
        ensures
            r == *self,
    {
        CompletenessInfo {
            symbol: self.symbol.clone(),
            interval: self.interval.clone(),
            indicator_type: self.indicator_type,
            indicator_name: self.indicator_name.clone(),
            parameters: self.parameters.clone(),
            last_calculated_time: self.last_calculated_time,
            first_candle_time: self.first_candle_time,
            last_candle_time: self.last_candle_time,
            data_count: self.data_count,
            coverage_percent: self.coverage_percent,
            is_complete: self.is_complete,
            updated_at: self.updated_at,
        }
    }
}

/// The cache key of a record.
pub open spec fn info_key(i: CompletenessInfo) -> Seq<char> {
    fingerprint_text(i.symbol@, i.interval@, i.indicator_name@, i.parameters@)
}

/// Coverage in whole percent: how far the last calculated point reaches
/// from the first candle towards the last, clamped to `0 ..= 100`; zero when
/// the candles span no time.
pub open spec fn coverage_of(first: int, last: int, calc: int) -> int {
    if last - first <= 0 || calc - first <= 0 {
        0
    } else if (calc - first) * 100 / (last - first) > 100 {
        100
    } else {
        (calc - first) * 100 / (last - first)
    }
}

/// Complete: the last calculated point is within a day of the last candle
/// and the coverage is at least 95 percent.
pub open spec fn complete_of(last: int, calc: int, coverage: int) -> bool {
    last - calc <= FRESH_WINDOW_MICROS && coverage >= COMPLETE_COVERAGE
}

/// Coverage of a record's timestamps; zero unless all three are known.
pub open spec fn coverage_spec(first: Option<i64>, last: Option<i64>, calc: Option<i64>) -> int {
    match (first, last, calc) {
        (Some(f), Some(l), Some(c)) => coverage_of(f as int, l as int, c as int),
        _ => 0,
    }
}

/// Completeness of a record's timestamps; false unless all three are known.
pub open spec fn complete_spec(first: Option<i64>, last: Option<i64>, calc: Option<i64>) -> bool {
    match (first, last, calc) {
        (Some(f), Some(l), Some(c)) => complete_of(l as int, c as int, coverage_of(f as int, l as int, c as int)),
        _ => false,
    }
}

/// Coverage in percent of the span from `first` to `last` reached by `calc`.
pub fn coverage_percent(first: i64, last: i64, calc: i64) -> (r: i32)
    ensures
        r as int == coverage_of(first as int, last as int, calc as int),
        0 <= r <= 100,
{
    let span: i128 = last as i128 - first as i128;
    let done: i128 = calc as i128 - first as i128;
    if span <= 0 || done <= 0 {
        return 0;
    }
    let pct: i128 = done * 100 / span;
    if pct > 100 {
        100
    } else {
        pct as i32
    }
}

/// Whether a series whose last point is `calc` is complete.
pub fn is_complete_at(last: i64, calc: i64, coverage: i32) -> (r: bool)
    ensures
        r == complete_of(last as int, calc as int, coverage as int),
{
    (last as i128 - calc as i128) <= FRESH_WINDOW_MICROS as i128 && coverage >= COMPLETE_COVERAGE
}

/// `r` is the record of `job` derived at `now` from a candle range and
/// the stored-point summary, either of which may be unknown.
pub open spec fn is_derived(
    r: CompletenessInfo,
    job: CalculationJob,
    now: i64,
    candle_range: Option<(i64, i64)>,
    calculated: Option<(Option<i64>, i64)>,
) -> bool {
    &&& info_key(r) == job_fingerprint(job)
    &&& r.symbol == job.symbol
    &&& r.interval == job.interval
    &&& r.indicator_type == job.indicator_type
    &&& r.indicator_name == job.indicator_name
    &&& r.parameters == job.parameters
    &&& r.first_candle_time == (match candle_range { Some(p) => Some(p.0), None => None::<i64> })
    &&& r.last_candle_time == (match candle_range { Some(p) => Some(p.1), None => None::<i64> })
    &&& r.last_calculated_time == (match calculated { Some(p) => p.0, None => None::<i64> })
    &&& r.data_count == (match calculated { Some(p) => p.1, None => 0 })
    &&& r.coverage_percent as int == coverage_spec(r.first_candle_time, r.last_candle_time, r.last_calculated_time)
    &&& r.is_complete == complete_spec(r.first_candle_time, r.last_candle_time, r.last_calculated_time)
    &&& r.updated_at == now
}

/// A record younger than the time-to-live is fresh.
pub open spec fn fresh(i: CompletenessInfo, ttl_minutes: i64, now: i64) -> bool {
    now - i.updated_at < ttl_minutes * MICROS_PER_MINUTE
}

impl CompletenessInfo {
    /// The cache key of this record.
    pub fn cache_key(&self) -> (r: String)
        ensures
            r@ == info_key(*self),
    {
        fingerprint_of(self.symbol.as_str(), self.interval.as_str(), self.indicator_name.as_str(), self.parameters.as_str())
    }

    /// An empty record for a job, stamped at `now`.
    pub fn from_job_at(job: &CalculationJob, now: i64) -> (r: Self)
        ensures
            info_key(r) == job_fingerprint(*job),
            r.symbol == job.symbol,
            r.interval == job.interval,
            r.indicator_type == job.indicator_type,
            r.indicator_name == job.indicator_name,
            r.parameters == job.parameters,
            r.last_calculated_time is None,
            r.first_candle_time is None,
            r.last_candle_time is None,
            r.data_count == 0,
            r.coverage_percent == 0,
            !r.is_complete,
            r.updated_at == now,
    {
        CompletenessInfo {
            symbol: job.symbol.clone(),
            interval: job.interval.clone(),
            indicator_type: job.indicator_type,
            indicator_name: job.indicator_name.clone(),
            parameters: job.parameters.clone(),
            last_calculated_time: None,
            first_candle_time: None,
            last_candle_time: None,
            data_count: 0,
            coverage_percent: 0,
            is_complete: false,
            updated_at: now,
        }
    }

    /// An empty record for a job, stamped with the current time.
    pub fn from_job(job: &CalculationJob) -> (r: Self)
        ensures
            info_key(r) == job_fingerprint(*job),
            r.indicator_type == job.indicator_type,
            r.last_calculated_time is None,
            r.data_count == 0,
            r.coverage_percent == 0,
            !r.is_complete,
    {
        CompletenessInfo::from_job_at(job, now_micros())
    }

    /// The record of a job derived from what the store reports: the candle
    /// range of its pair, if known, and the time of its last stored point
    /// with the number of stored points, if known.
    pub fn derive(
        job: &CalculationJob,
        now: i64,
        candle_range: Option<(i64, i64)>,
        calculated: Option<(Option<i64>, i64)>,
    ) -> (r: Self)
        ensures
            is_derived(r, *job, now, candle_range, calculated),
    {
        let mut info = CompletenessInfo::from_job_at(job, now);
        match candle_range {
            Some((first, last)) => {
                info.first_candle_time = Some(first);
                info.last_candle_time = Some(last);
            },
            None => {},
        }
        match calculated {
            Some((last_calc, count)) => {
                info.last_calculated_time = last_calc;
                info.data_count = count;
            },
            None => {},
        }
        match (info.first_candle_time, info.last_candle_time, info.last_calculated_time) {
            (Some(f), Some(l), Some(c)) => {
                let pct = coverage_percent(f, l, c);
                info.coverage_percent = pct;
                info.is_complete = is_complete_at(l, c, pct);
            },
            _ => {},
        }
        info
    }

    /// Whether this record is younger than `ttl_minutes` at time `now`.
    pub fn is_valid_at(&self, ttl_minutes: i64, now: i64) -> (r: bool)
        ensures
            r == fresh(*self, ttl_minutes, now),
    {
        let t = ttl_minutes as i128;
        proof {
            assert(-9223372036854775808 * 60000000 <= t * 60000000 <= 9223372036854775807 * 60000000) by (nonlinear_arith)
                requires
                    -9223372036854775808 <= t <= 9223372036854775807,
            ;
        }
        (now as i128 - self.updated_at as i128) < t * (MICROS_PER_MINUTE as i128)
    }

    /// Whether this record is younger than `ttl_minutes` now.
    pub fn is_valid(&self, ttl_minutes: i64) -> (r: bool) {
        self.is_valid_at(ttl_minutes, now_micros())
    }
}

} // verus!
