use technical_indicator_calculator::emission::{
    assemble_patterns, assemble_series, attach_times, plan_emission, prepare_canonical, prepare_kernel, EmissionPlan,
    PatternType, PatternVerdict,
};
use technical_indicator_calculator::kernel::{resolve_kernel_input, KernelError, KernelInput};
use technical_indicator_calculator::names::{IndicatorCalculator, Kernel, TaLibAbstract};
use technical_indicator_calculator::params::{get_integer_param, Param, ParamValue};
use technical_indicator_calculator::patterns::CandlePattern;

fn int_param(name: &str, v: i64) -> Param {
    Param { name: name.to_string(), value: ParamValue::Integer(v) }
}

fn plan_for(name: &str, params: Vec<Param>, n: usize) -> Result<EmissionPlan, KernelError> {
    let input = prepare_kernel(name, &params)?;
    plan_emission(&input, n)
}

#[test]
fn sma_warm_up_emits_from_index_two() {
    let plan = plan_for("SMA", vec![int_param("period", 3)], 6).unwrap();
    assert_eq!(plan, EmissionPlan { first_index: 2, count: 4 });
    let values = vec![2.0f64, 3.0, 4.0, 5.0];
    let pts = assemble_series(&plan, 2, &values).unwrap();
    assert_eq!(pts, vec![(2, 2.0), (3, 3.0), (4, 4.0), (5, 5.0)]);
}

#[test]
fn rsi_monotone_series_emits_at_fourteen_and_fifteen() {
    let plan = plan_for("RSI", vec![int_param("period", 14)], 16).unwrap();
    assert_eq!(plan, EmissionPlan { first_index: 14, count: 2 });
    let pts = assemble_series(&plan, 14, &vec![100.0f64, 100.0]).unwrap();
    assert_eq!(pts, vec![(14, 100.0), (15, 100.0)]);
}

#[test]
fn bbands_period_twenty_over_thirty_candles() {
    let plan = plan_for("BBANDS", vec![int_param("period", 20)], 30).unwrap();
    assert_eq!(plan, EmissionPlan { first_index: 19, count: 11 });
}

#[test]
fn obv_has_no_warm_up() {
    let plan = plan_for("OBV", vec![], 5).unwrap();
    assert_eq!(plan, EmissionPlan { first_index: 0, count: 5 });
    let values = vec![100.0f64, 200.0, -100.0, -100.0, 400.0];
    let pts = assemble_series(&plan, 0, &values).unwrap();
    assert_eq!(&pts[1..], &[(1, 200.0), (2, -100.0), (3, -100.0), (4, 400.0)]);
}

#[test]
fn empty_series_owes_empty_emission() {
    for name in ["SMA", "RSI", "MACD", "OBV", "CDLHAMMER"] {
        let plan = plan_for(name, vec![], 0).unwrap();
        assert_eq!(plan.count, 0);
        let pts = assemble_series::<f64>(&plan, plan.first_index, &vec![]).unwrap();
        assert!(pts.is_empty());
    }
}

#[test]
fn series_as_long_as_warm_up_emits_nothing() {
    assert_eq!(plan_for("SMA", vec![int_param("period", 3)], 2), Ok(EmissionPlan { first_index: 2, count: 0 }));
    assert_eq!(plan_for("SMA", vec![int_param("period", 3)], 3), Ok(EmissionPlan { first_index: 2, count: 1 }));
    assert_eq!(plan_for("RSI", vec![], 14), Ok(EmissionPlan { first_index: 14, count: 0 }));
    assert_eq!(plan_for("RSI", vec![], 15), Ok(EmissionPlan { first_index: 14, count: 1 }));
}

#[test]
fn series_shorter_than_warm_up_is_insufficient() {
    assert_eq!(plan_for("SMA", vec![int_param("period", 3)], 1), Err(KernelError::InsufficientData));
    assert_eq!(plan_for("RSI", vec![], 13), Err(KernelError::InsufficientData));
    assert_eq!(plan_for("MACD", vec![], 32), Err(KernelError::InsufficientData));
    assert_eq!(plan_for("OBV", vec![], 1), Ok(EmissionPlan { first_index: 0, count: 1 }));
}

#[test]
fn every_candlestick_pattern_is_a_kernel() {
    for (name, warm) in [
        ("CDL2CROWS", 12), ("CDL3BLACKCROWS", 13), ("CDL3LINESTRIKE", 8), ("CDL3OUTSIDE", 3), ("CDLDOJI", 10),
        ("CDLHIKKAKE", 5), ("CDLMATCHINGLOW", 6), ("CDLMATHOLD", 14), ("CDLSTICKSANDWICH", 7),
        ("CDLXSIDEGAP3METHODS", 2), ("CDLSPINNINGTOP", 10), ("CDLEVENINGSTAR", 12), ("cdlharami", 11),
    ] {
        let input = prepare_kernel(name, &vec![]).unwrap();
        assert_eq!(input.warm_up(), warm, "{}", name);
        assert!(TaLibAbstract::is_function_available(name));
    }
    assert!(CandlePattern::MorningStar.has_penetration());
    assert!(!CandlePattern::Doji.has_penetration());
    assert_eq!(CandlePattern::from_canonical("CDLTAKURI"), Some(CandlePattern::Takuri));
    assert_eq!(CandlePattern::Takuri.name(), "CDLTAKURI");
}

#[test]
fn price_volume_trend_starts_at_second_candle() {
    let input = prepare_kernel("pvt", &vec![]).unwrap();
    assert_eq!(input, KernelInput::Plain { kernel: Kernel::Pvt });
    assert_eq!(plan_emission(&input, 5), Ok(EmissionPlan { first_index: 1, count: 4 }));
    assert_eq!(plan_emission(&input, 1), Ok(EmissionPlan { first_index: 1, count: 0 }));
}

#[test]
fn zero_or_negative_period_is_invalid() {
    for name in ["SMA", "EMA", "RSI", "ATR", "ADX", "CCI", "MOM", "MFI", "BBANDS", "WMA", "DEMA", "TEMA", "TRIMA", "KAMA", "NATR", "WILLR", "ROC", "STDDEV", "STOCHRSI"] {
        assert_eq!(plan_for(name, vec![int_param("period", 0)], 50), Err(KernelError::InvalidParameter));
        assert_eq!(plan_for(name, vec![int_param("period", -5)], 50), Err(KernelError::InvalidParameter));
    }
    assert_eq!(plan_for("STOCH", vec![int_param("k_period", 0)], 50), Err(KernelError::InvalidParameter));
}

#[test]
fn macd_slow_not_above_fast_is_invalid() {
    let p = vec![int_param("fast_period", 26), int_param("slow_period", 12)];
    assert_eq!(prepare_kernel("MACD", &p), Err(KernelError::InvalidParameter));
    let q = vec![int_param("fast_period", 12), int_param("slow_period", 12)];
    assert_eq!(prepare_kernel("MACD", &q), Err(KernelError::InvalidParameter));
    assert_eq!(prepare_kernel("PPO", &p), Err(KernelError::InvalidParameter));
    let adosc = prepare_kernel("ADOSC", &vec![int_param("fast_period", 10), int_param("slow_period", 3)]).unwrap();
    assert_eq!(adosc.warm_up(), 9);
}

#[test]
fn default_warm_ups() {
    let macd = prepare_kernel("macd", &vec![]).unwrap();
    assert_eq!(macd, KernelInput::Macd { fast_period: 12, slow_period: 26, signal_period: 9 });
    assert_eq!(macd.warm_up(), 33);
    assert_eq!(prepare_kernel("STOCH", &vec![]).unwrap().warm_up(), 17);
    assert_eq!(prepare_kernel("ADX", &vec![]).unwrap().warm_up(), 27);
    assert_eq!(prepare_kernel("SMA", &vec![]).unwrap().warm_up(), 19);
    assert_eq!(prepare_kernel("EMA", &vec![]).unwrap().warm_up(), 8);
    assert_eq!(prepare_kernel("MOM", &vec![]).unwrap().warm_up(), 10);
    assert_eq!(prepare_kernel("STOCHRSI", &vec![]).unwrap().warm_up(), 20);
    assert_eq!(prepare_kernel("ENGULFING", &vec![]).unwrap().warm_up(), 2);
    assert_eq!(prepare_kernel("DEMA", &vec![int_param("period", 10)]).unwrap().warm_up(), 18);
    assert_eq!(prepare_kernel("TEMA", &vec![int_param("period", 10)]).unwrap().warm_up(), 27);
    assert_eq!(prepare_kernel("WILLR", &vec![]).unwrap().warm_up(), 13);
    assert_eq!(prepare_kernel("ROC", &vec![]).unwrap().warm_up(), 10);
    assert_eq!(prepare_kernel("STDDEV", &vec![]).unwrap().warm_up(), 4);
    assert_eq!(prepare_kernel("KAMA", &vec![]).unwrap().warm_up(), 20);
    assert_eq!(prepare_kernel("NATR", &vec![]).unwrap().warm_up(), 14);
    assert_eq!(prepare_kernel("PPO", &vec![]).unwrap().warm_up(), 25);
    assert_eq!(prepare_kernel("ADOSC", &vec![]).unwrap().warm_up(), 9);
    assert_eq!(prepare_kernel("SAR", &vec![]).unwrap().warm_up(), 1);
    assert_eq!(prepare_kernel("TRANGE", &vec![]).unwrap().warm_up(), 1);
    assert_eq!(prepare_kernel("AD", &vec![]).unwrap().warm_up(), 0);
    let ema_bands = resolve_kernel_input(Kernel::Bbands, &vec![int_param("period", 10), int_param("ma_type", 4)]).unwrap();
    assert_eq!(ema_bands.warm_up(), 27);
}

#[test]
fn unknown_indicator_is_unsupported() {
    assert_eq!(prepare_kernel("VWAP", &vec![]), Err(KernelError::UnsupportedIndicator));
    assert_eq!(prepare_kernel("CDLNOTAPATTERN", &vec![]), Err(KernelError::UnsupportedIndicator));
    assert_eq!(prepare_canonical("rsi", &vec![]), Err(KernelError::UnsupportedIndicator));
}

#[test]
fn backend_output_of_wrong_shape_is_internal_error() {
    let plan = EmissionPlan { first_index: 2, count: 4 };
    assert_eq!(assemble_series(&plan, 1, &vec![1.0f64; 4]), Err(KernelError::KernelInternal));
    assert_eq!(assemble_series(&plan, 2, &vec![1.0f64; 3]), Err(KernelError::KernelInternal));
}

#[test]
fn pattern_codes_become_verdicts() {
    let plan = EmissionPlan { first_index: 2, count: 5 };
    let pts = assemble_patterns(Kernel::Pattern(CandlePattern::Engulfing), &plan, 2, &vec![0, 100, -100, 0, 200]).unwrap();
    assert_eq!(
        pts,
        vec![
            (3, PatternVerdict { kernel: Kernel::Pattern(CandlePattern::Engulfing), pattern_type: PatternType::Bullish, strength_percent: 100 }),
            (4, PatternVerdict { kernel: Kernel::Pattern(CandlePattern::Engulfing), pattern_type: PatternType::Bearish, strength_percent: 100 }),
            (6, PatternVerdict { kernel: Kernel::Pattern(CandlePattern::Engulfing), pattern_type: PatternType::Bullish, strength_percent: 100 }),
        ]
    );
    let weak = assemble_patterns(Kernel::Pattern(CandlePattern::Hammer), &EmissionPlan { first_index: 0, count: 1 }, 0, &vec![-40]).unwrap();
    assert_eq!(weak[0].1.strength_percent, 40);
    assert_eq!(weak[0].1.pattern_type, PatternType::Bearish);
}

#[test]
fn replaying_assembly_is_identical() {
    let plan = plan_for("SMA", vec![int_param("period", 3)], 6).unwrap();
    let values = vec![2.0f64, 3.0, 4.0, 5.0];
    assert_eq!(assemble_series(&plan, 2, &values), assemble_series(&plan, 2, &values));
}

#[test]
fn function_names_are_normalised() {
    assert_eq!(TaLibAbstract::get_function_name("rsi"), "RSI");
    assert_eq!(TaLibAbstract::get_function_name("engulfing"), "CDLENGULFING");
    assert_eq!(TaLibAbstract::get_function_name("Hammer"), "CDLHAMMER");
    assert_eq!(TaLibAbstract::get_function_name("morningstar"), "CDLMORNINGSTAR");
    assert_eq!(TaLibAbstract::get_function_name("vwap"), "VWAP");
    assert_eq!(IndicatorCalculator::get_ta_function_name("bbands"), "BBANDS");
}

#[test]
fn availability_follows_kernels() {
    assert!(TaLibAbstract::is_function_available("sma"));
    assert!(TaLibAbstract::is_function_available("STOCHRSI"));
    assert!(!TaLibAbstract::is_function_available("ENGULFING"));
    assert!(!TaLibAbstract::is_function_available("VWAP"));
    assert!(IndicatorCalculator::is_indicator_available("engulfing"));
    assert!(IndicatorCalculator::is_indicator_available("wma"));
    assert!(IndicatorCalculator::is_indicator_available("pvt"));
    assert!(!IndicatorCalculator::is_indicator_available("vwap"));
}

#[test]
fn supported_indicator_list() {
    let v = IndicatorCalculator::get_supported_indicators();
    assert_eq!(v.len(), 12);
    assert_eq!(v[0], "RSI");
    assert_eq!(v[11], "CDLMORNINGSTAR");
    for name in v {
        assert!(IndicatorCalculator::is_indicator_available(&name));
    }
}

#[test]
fn integer_parameters_resolve_by_name() {
    let ps = vec![
        Param { name: "period".to_string(), value: ParamValue::NotInteger },
        int_param("other", 7),
        int_param("period", 21),
        int_param("period", 30),
    ];
    assert_eq!(get_integer_param(&ps, "period", 14), 21);
    assert_eq!(get_integer_param(&ps, "missing", 14), 14);
    assert_eq!(get_integer_param(&vec![], "period", 9), 9);
}

#[test]
fn emission_indices_become_open_times() {
    let plan = plan_for("SMA", vec![int_param("period", 3)], 6).unwrap();
    let pts = assemble_series(&plan, 2, &vec![2.0f64, 3.0, 4.0, 5.0]).unwrap();
    let open_time = vec![100i64, 200, 300, 400, 500, 600];
    let timed = attach_times(&pts, &open_time);
    assert_eq!(timed, vec![(300, 2.0), (400, 3.0), (500, 4.0), (600, 5.0)]);
}
