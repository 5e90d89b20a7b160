use technical_indicator_calculator::config::WorkerConfig;
use technical_indicator_calculator::job::{candle_data_key, indicator_key, intermediate_key, IndicatorType};
use technical_indicator_calculator::strategy::{format_strategy_for_display, ComparisonOperator, LogicalOperator};
use technical_indicator_calculator::text::{specify_type, truncate_string};
use technical_indicator_calculator::validation::{decimal, ValidationResult};

#[test]
fn truncation_marks_the_cut() {
    assert_eq!(truncate_string("hello world", 5), "hello...");
    assert_eq!(truncate_string("hello", 5), "hello");
    assert_eq!(truncate_string("", 0), "");
}

#[test]
fn truncation_counts_bytes() {
    assert_eq!(truncate_string("éa", 2), "é...");
    assert_eq!(truncate_string("éa", 3), "éa");
    assert_eq!(truncate_string("aé", 1), "a...");
}

#[test]
fn specify_type_is_identity() {
    assert_eq!(specify_type(7u32), 7);
}

#[test]
fn indicator_type_labels() {
    assert_eq!(IndicatorType::from_name("VOLUME"), IndicatorType::Volume);
    assert_eq!(IndicatorType::from_name("Pattern"), IndicatorType::Pattern);
    assert_eq!(IndicatorType::from_name("unknown"), IndicatorType::Oscillator);
    assert_eq!(IndicatorType::Volatility.to_string(), "volatility");
    assert_eq!(IndicatorType::from_lowercase("overlap"), IndicatorType::Overlap);
}

#[test]
fn decimal_numbers() {
    assert_eq!(decimal(0), "0");
    assert_eq!(decimal(7), "7");
    assert_eq!(decimal(1203), "1203");
}

#[test]
fn validation_summary_lists_issues() {
    let mut r = ValidationResult::new();
    assert!(!r.has_errors());
    assert!(!r.has_warnings());
    assert_eq!(r.summary(), "Strategy validation passed without issues.");
    r.add_error("no name".to_string());
    r.add_error("no rules".to_string());
    r.add_warning("no stop".to_string());
    assert!(r.has_errors());
    assert!(r.has_warnings());
    assert_eq!(
        r.summary(),
        "Errors (2):\n  1. no name\n  2. no rules\n\nWarnings (1):\n  1. no stop\n"
    );
    assert_eq!(r.to_result(), Err("Strategy validation failed: no name, no rules".to_string()));
}

#[test]
fn validation_without_errors_is_ok() {
    let mut r = ValidationResult::new();
    r.add_warning("w".to_string());
    assert_eq!(r.summary(), "Warnings (1):\n  1. w\n");
    assert_eq!(r.to_result(), Ok(()));
}

#[test]
fn strategy_listing_line() {
    assert_eq!(
        format_strategy_for_display("0123456789", "Trend", "1.0", true),
        format!("{:8} | {:30} | {:10} | {}", "01234567", "Trend", "1.0", "Enabled")
    );
    assert_eq!(
        format_strategy_for_display("ab", "x", "2", false),
        format!("{:8} | {:30} | {:10} | {}", "ab", "x", "2", "Disabled")
    );
}

#[test]
fn operator_labels_round_trip() {
    for op in [ComparisonOperator::Equal, ComparisonOperator::CrossesBelow, ComparisonOperator::LessThanOrEqual] {
        assert_eq!(ComparisonOperator::from_label(op.as_str()), Some(op));
    }
    assert_eq!(ComparisonOperator::from_label("=="), None);
    assert_eq!(LogicalOperator::from_label("or"), Some(LogicalOperator::Or));
    assert_eq!(LogicalOperator::And.as_str(), "and");
}

#[test]
fn worker_defaults() {
    let c = WorkerConfig::default();
    assert_eq!(c.batch_size, 1000);
    assert_eq!(c.completeness_cache_minutes, 30);
    assert_eq!(c.cache_ttl_seconds, 3600);
    assert_eq!(c.retry_max, 3);
    assert_eq!(c.retry_delay_ms, 500);
}

#[test]
fn indicator_type_from_str() {
    assert_eq!(IndicatorType::from("Overlap"), IndicatorType::Overlap);
    assert_eq!(IndicatorType::from("VOLATILITY"), IndicatorType::Volatility);
    assert_eq!(IndicatorType::from(""), IndicatorType::Oscillator);
}

#[test]
fn cache_keys_join_fields() {
    assert_eq!(candle_data_key("BTCUSDT", "1h"), "candles:BTCUSDT:1h");
    assert_eq!(indicator_key("BTCUSDT", "1h", "RSI", "{}"), "indicator:BTCUSDT:1h:RSI:{}");
    assert_eq!(intermediate_key("ETHUSDT", "1d", "gains", "{\"period\":14}"), "intermediate:ETHUSDT:1d:gains:{\"period\":14}");
}
