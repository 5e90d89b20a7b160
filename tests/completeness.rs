use technical_indicator_calculator::cache::CompletenessCache;
use technical_indicator_calculator::completeness::{coverage_percent, is_complete_at, CompletenessInfo};
use technical_indicator_calculator::job::{CalculationJob, IndicatorType};
use technical_indicator_calculator::refresh::distinct_pairs;

const HOUR: i64 = 3_600_000_000;
const MINUTE: i64 = 60_000_000;

fn job(symbol: &str, interval: &str, name: &str, params: &str) -> CalculationJob {
    CalculationJob::new(
        symbol.to_string(),
        interval.to_string(),
        IndicatorType::Oscillator,
        name.to_string(),
        params.to_string(),
    )
}

#[test]
fn coverage_is_clamped_percentage() {
    assert_eq!(coverage_percent(0, 100, 50), 50);
    assert_eq!(coverage_percent(0, 100, 100), 100);
    assert_eq!(coverage_percent(0, 100, 150), 100);
    assert_eq!(coverage_percent(0, 100, -20), 0);
    assert_eq!(coverage_percent(0, 3, 2), 66);
    assert_eq!(coverage_percent(10, 10, 10), 0);
    assert_eq!(coverage_percent(0, 1000, 949), 94);
}

#[test]
fn complete_needs_recent_point_and_coverage() {
    assert!(is_complete_at(100 * HOUR, 76 * HOUR, 95));
    assert!(!is_complete_at(100 * HOUR, 76 * HOUR - 1, 99));
    assert!(!is_complete_at(100 * HOUR, 100 * HOUR, 94));
    assert!(is_complete_at(100 * HOUR, 101 * HOUR, 100));
}

#[test]
fn derived_record_follows_store_summary() {
    let j = job("BTCUSDT", "1h", "RSI", "{\"period\":14}");
    let info = CompletenessInfo::derive(&j, 7, Some((0, 100 * HOUR)), Some((Some(99 * HOUR), 99)));
    assert_eq!(info.coverage_percent, 99);
    assert!(info.is_complete);
    assert_eq!(info.data_count, 99);
    assert_eq!(info.updated_at, 7);
    assert_eq!(info.cache_key(), "BTCUSDT:1h:RSI:{\"period\":14}");

    let stale = CompletenessInfo::derive(&j, 7, Some((0, 100 * HOUR)), Some((Some(50 * HOUR), 50)));
    assert_eq!(stale.coverage_percent, 50);
    assert!(!stale.is_complete);

    let unknown = CompletenessInfo::derive(&j, 7, None, Some((Some(99 * HOUR), 99)));
    assert_eq!(unknown.coverage_percent, 0);
    assert!(!unknown.is_complete);
    assert_eq!(unknown.first_candle_time, None);

    let failed = CompletenessInfo::derive(&j, 7, Some((0, 100 * HOUR)), None);
    assert_eq!(failed.data_count, 0);
    assert_eq!(failed.last_calculated_time, None);
    assert!(!failed.is_complete);
}

#[test]
fn records_expire_after_ttl() {
    let j = job("ETHUSDT", "1d", "SMA", "{}");
    let info = CompletenessInfo::from_job_at(&j, 0);
    assert!(info.is_valid_at(30, 30 * MINUTE - 1));
    assert!(!info.is_valid_at(30, 30 * MINUTE));
}

#[test]
fn cache_get_update_remove() {
    let mut cache = CompletenessCache::new(30);
    let j = job("BTCUSDT", "1h", "RSI", "{}");
    assert!(cache.get_job_at(&j, 0).is_none());
    let info = CompletenessInfo::derive(&j, 0, Some((0, 10 * HOUR)), Some((Some(10 * HOUR), 10)));
    cache.update(info);
    let got = cache.get_job_at(&j, 5 * MINUTE).unwrap();
    assert!(got.is_complete);
    assert!(cache.get_job_at(&j, 31 * MINUTE).is_none());
    let replaced = CompletenessInfo::from_job_at(&j, 1);
    cache.update(replaced);
    assert!(!cache.get_job_at(&j, 2).unwrap().is_complete);
    assert_eq!(cache.get_stats(), (1, 0, 1));
    cache.remove(&j);
    assert!(cache.get_job_at(&j, 2).is_none());
    assert_eq!(cache.get_stats(), (0, 0, 0));
}

#[test]
fn stats_split_total_into_complete_and_incomplete() {
    let mut cache = CompletenessCache::new(30);
    for (i, name) in ["RSI", "SMA", "EMA", "MACD"].iter().enumerate() {
        let j = job("BTCUSDT", "1h", name, "{}");
        let calc = if i % 2 == 0 { 10 * HOUR } else { HOUR };
        cache.update(CompletenessInfo::derive(&j, 0, Some((0, 10 * HOUR)), Some((Some(calc), 3))));
    }
    let (total, complete, incomplete) = cache.get_stats();
    assert_eq!((total, complete, incomplete), (4, 2, 2));
    assert_eq!(total, complete + incomplete);
    cache.clear();
    assert_eq!(cache.get_stats(), (0, 0, 0));
}

#[test]
fn incomplete_jobs_are_listed() {
    let mut cache = CompletenessCache::new(30);
    let done = job("BTCUSDT", "1h", "RSI", "{}");
    let todo = CalculationJob::new("BTCUSDT".to_string(), "1h".to_string(), IndicatorType::Overlap, "SMA".to_string(), "{}".to_string());
    cache.update(CompletenessInfo::derive(&done, 0, Some((0, HOUR)), Some((Some(HOUR), 2))));
    cache.update(CompletenessInfo::derive(&todo, 0, Some((0, HOUR)), None));
    let jobs = cache.get_incomplete_jobs_at(MINUTE);
    assert_eq!(jobs.len(), 1);
    assert_eq!(jobs[0].indicator_name, "SMA");
    assert_eq!(jobs[0].indicator_type, IndicatorType::Overlap);
    assert!(cache.get_incomplete_jobs_at(40 * MINUTE).is_empty());
    let other = job("ETHUSDT", "1h", "SMA", "{}");
    cache.update(CompletenessInfo::derive(&other, 0, None, None));
    let jobs = cache.get_incomplete_jobs_at(MINUTE);
    assert_eq!(jobs.len(), 2);
    assert_ne!(jobs[0].fingerprint(), jobs[1].fingerprint());
}

#[test]
fn pairs_are_distinct_in_first_order() {
    let cfgs = vec![
        job("BTCUSDT", "1h", "RSI", "{}"),
        job("ETHUSDT", "1h", "RSI", "{}"),
        job("BTCUSDT", "1h", "SMA", "{}"),
        job("BTCUSDT", "1d", "SMA", "{}"),
    ];
    let pairs = distinct_pairs(&cfgs);
    assert_eq!(
        pairs,
        vec![
            ("BTCUSDT".to_string(), "1h".to_string()),
            ("ETHUSDT".to_string(), "1h".to_string()),
            ("BTCUSDT".to_string(), "1d".to_string()),
        ]
    );
}

#[test]
fn rebuild_derives_every_configuration() {
    let cfgs = vec![job("BTCUSDT", "1h", "RSI", "{}"), job("ETHUSDT", "1h", "RSI", "{}")];
    let pairs = distinct_pairs(&cfgs);
    let ranges = vec![Some((0, 10 * HOUR)), None];
    let calculated = vec![Some((Some(10 * HOUR), 10)), Some((Some(10 * HOUR), 10))];
    let mut cache = CompletenessCache::new(30);
    cache.rebuild(&cfgs, &pairs, &ranges, &calculated, 0);
    assert!(cache.get_job_at(&cfgs[0], 0).unwrap().is_complete);
    let eth = cache.get_job_at(&cfgs[1], 0).unwrap();
    assert!(!eth.is_complete);
    assert_eq!(eth.data_count, 10);
    assert_eq!(cache.get_stats(), (2, 1, 1));
}
