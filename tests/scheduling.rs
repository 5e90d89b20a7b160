use technical_indicator_calculator::cache::CompletenessCache;
use technical_indicator_calculator::completeness::CompletenessInfo;
use technical_indicator_calculator::consumer::{chunk_ranges, transition, JobAction, JobEvent, JobPhase};
use technical_indicator_calculator::job::{CalculationJob, IndicatorType};
use technical_indicator_calculator::kernel::KernelError;
use technical_indicator_calculator::producer::{needs_cache_refresh, plan_sweep};

const HOUR: i64 = 3_600_000_000;
const SECOND: i64 = 1_000_000;

fn cfg(name: &str) -> CalculationJob {
    CalculationJob::new("BTCUSDT".to_string(), "1h".to_string(), IndicatorType::Oscillator, name.to_string(), "{}".to_string())
}

#[test]
fn sweep_skips_complete_configs() {
    let mut cache = CompletenessCache::new(30);
    let rsi = cfg("RSI");
    cache.update(CompletenessInfo::derive(&rsi, 0, Some((0, HOUR)), Some((Some(HOUR), 2))));
    let cfgs = vec![rsi.clone(), cfg("SMA")];
    let jobs = plan_sweep(&cfgs, &vec![false, false], &cache, SECOND);
    assert_eq!(jobs.len(), 1);
    assert_eq!(jobs[0].indicator_name, "SMA");
}

#[test]
fn sweep_skips_leased_and_repeated_configs() {
    let cache = CompletenessCache::new(30);
    let cfgs = vec![cfg("RSI"), cfg("SMA"), cfg("RSI")];
    let jobs = plan_sweep(&cfgs, &vec![false, true, false], &cache, 0);
    assert_eq!(jobs.len(), 1);
    assert_eq!(jobs[0].indicator_name, "RSI");
}

#[test]
fn second_sweep_enqueues_nothing() {
    let cache = CompletenessCache::new(30);
    let cfgs = vec![cfg("RSI"), cfg("MACD")];
    let first = plan_sweep(&cfgs, &vec![false, false], &cache, 0);
    assert_eq!(first.len(), 2);
    let live: Vec<String> = first.iter().map(|j| j.cache_key()).collect();
    let leased: Vec<bool> = cfgs.iter().map(|c| live.contains(&c.cache_key())).collect();
    let second = plan_sweep(&cfgs, &leased, &cache, SECOND);
    assert!(second.is_empty());
}

#[test]
fn lease_key_names_every_field() {
    let j = CalculationJob::new(
        "BTCUSDT".to_string(),
        "1h".to_string(),
        IndicatorType::Volume,
        "OBV".to_string(),
        "{}".to_string(),
    );
    assert_eq!(j.cache_key(), "job:BTCUSDT:1h:volume:OBV:{}");
    assert_eq!(j.fingerprint(), "BTCUSDT:1h:OBV:{}");
}

#[test]
fn cache_refresh_is_due_after_ttl() {
    let minute = 60 * SECOND;
    assert!(!needs_cache_refresh(0, 29 * minute, 30));
    assert!(needs_cache_refresh(0, 30 * minute, 30));
}

#[test]
fn chunks_cover_points_in_order() {
    assert_eq!(chunk_ranges(2500, 1000), vec![(0, 1000), (1000, 2000), (2000, 2500)]);
    assert_eq!(chunk_ranges(1000, 1000), vec![(0, 1000)]);
    assert_eq!(chunk_ranges(3, 1), vec![(0, 1), (1, 2), (2, 3)]);
    assert!(chunk_ranges(0, 1000).is_empty());
}

#[test]
fn job_runs_through_its_batches() {
    let b = 1000;
    let (p, a) = transition(JobPhase::Queued, JobEvent::PermitAcquired, b);
    assert_eq!((p, a), (JobPhase::AwaitingSeries, JobAction::LoadSeries));
    let (p, a) = transition(p, JobEvent::SeriesLoaded { len: 3000 }, b);
    assert_eq!((p, a), (JobPhase::AwaitingKernel, JobAction::RunKernel));
    let (p, a) = transition(p, JobEvent::KernelDone { points: 2500 }, b);
    assert_eq!(a, JobAction::StoreChunk { start: 0, end: 1000 });
    let (p, a) = transition(p, JobEvent::ChunkStored, b);
    assert_eq!(a, JobAction::StoreChunk { start: 1000, end: 2000 });
    let (p, a) = transition(p, JobEvent::ChunkStored, b);
    assert_eq!(a, JobAction::StoreChunk { start: 2000, end: 2500 });
    let (p, a) = transition(p, JobEvent::ChunkStored, b);
    assert_eq!((p, a), (JobPhase::Committed, JobAction::Finish { committed: true }));
    let (p2, a2) = transition(p, JobEvent::ChunkFailed, b);
    assert_eq!((p2, a2), (JobPhase::Committed, JobAction::Ignore));
}

#[test]
fn empty_series_commits_without_writes() {
    let (p, a) = transition(JobPhase::AwaitingSeries, JobEvent::SeriesLoaded { len: 0 }, 1000);
    assert_eq!((p, a), (JobPhase::Committed, JobAction::Finish { committed: true }));
    let (p, a) = transition(JobPhase::AwaitingKernel, JobEvent::KernelDone { points: 0 }, 1000);
    assert_eq!((p, a), (JobPhase::Committed, JobAction::Finish { committed: true }));
}

#[test]
fn kernel_verdicts_decide_commit_or_failure() {
    let ins = transition(JobPhase::AwaitingKernel, JobEvent::KernelFailed { error: KernelError::InsufficientData }, 10);
    assert_eq!(ins, (JobPhase::Committed, JobAction::Finish { committed: true }));
    let inv = transition(JobPhase::AwaitingKernel, JobEvent::KernelFailed { error: KernelError::InvalidParameter }, 10);
    assert_eq!(inv, (JobPhase::Committed, JobAction::Finish { committed: true }));
    let int = transition(JobPhase::AwaitingKernel, JobEvent::KernelFailed { error: KernelError::KernelInternal }, 10);
    assert_eq!(int, (JobPhase::Failed, JobAction::Finish { committed: false }));
    let read = transition(JobPhase::AwaitingSeries, JobEvent::SeriesFailed, 10);
    assert_eq!(read, (JobPhase::Failed, JobAction::Finish { committed: false }));
    let write = transition(JobPhase::Storing { total: 5, next_start: 0 }, JobEvent::ChunkFailed, 10);
    assert_eq!(write, (JobPhase::Failed, JobAction::Finish { committed: false }));
}
