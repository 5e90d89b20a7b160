//! Canonical indicator names and the set of kernels the worker can run.

use vstd::prelude::*;
use crate::text::same_text;
use crate::patterns::{CandlePattern, pattern_for, pattern_name};

verus! {

/// What `str::to_uppercase` makes of a character sequence.
pub uninterp spec fn upper_of(s: Seq<char>) -> Seq<char>;

/// Relies on `str::to_uppercase`: the Unicode upper-case mapping, which
/// depends on the characters alone and leaves an empty string empty.
#[verifier::external_body]
fn to_upper(s: &str) -> (r: String)
    ensures
        r@ == upper_of(s@),
        s@.len() == 0 ==> r@.len() == 0,
{
    s.to_uppercase()
}

/// The computations the numeric backend offers, one per canonical name.
#[derive(Clone, Copy, Debug, PartialEq, Eq, Structural)]
pub enum Kernel {
    Rsi,
    Sma,
    Ema,
    Macd,
    Bbands,
    Atr,
    Stoch,
    Adx,
    Obv,
    Cci,
    StochRsi,
    Mom,
    Mfi,
    Wma,
    Dema,
    Tema,
    Trima,
    Kama,
    Natr,
    Willr,
    Roc,
    Stddev,
    Ppo,
    Adosc,
    Sar,
    Ad,
    Trange,
    Pvt,
    /// A candlestick pattern.
    Pattern(CandlePattern),
}

/// The canonical (upper-case) name of a kernel.
pub open spec fn kernel_name(k: Kernel) -> Seq<char> {
    match k {
        Kernel::Rsi => "RSI"@,
        Kernel::Sma => "SMA"@,
        Kernel::Ema => "EMA"@,
        Kernel::Macd => "MACD"@,
        Kernel::Bbands => "BBANDS"@,
        Kernel::Atr => "ATR"@,
        Kernel::Stoch => "STOCH"@,
        Kernel::Adx => "ADX"@,
        Kernel::Obv => "OBV"@,
        Kernel::Cci => "CCI"@,
        Kernel::StochRsi => "STOCHRSI"@,
        Kernel::Mom => "MOM"@,
        Kernel::Mfi => "MFI"@,
        Kernel::Wma => "WMA"@,
        Kernel::Dema => "DEMA"@,
        Kernel::Tema => "TEMA"@,
        Kernel::Trima => "TRIMA"@,
        Kernel::Kama => "KAMA"@,
        Kernel::Natr => "NATR"@,
        Kernel::Willr => "WILLR"@,
        Kernel::Roc => "ROC"@,
        Kernel::Stddev => "STDDEV"@,
        Kernel::Ppo => "PPO"@,
        Kernel::Adosc => "ADOSC"@,
        Kernel::Sar => "SAR"@,
        Kernel::Ad => "AD"@,
        Kernel::Trange => "TRANGE"@,
        Kernel::Pvt => "PVT"@,
        Kernel::Pattern(p) => pattern_name(p),
    }
}

/// The kernel whose canonical name is exactly `name`, if any.
pub open spec fn kernel_for(name: Seq<char>) -> Option<Kernel> {
    if name == "RSI"@ {
        Some(Kernel::Rsi)
    } else if name == "SMA"@ {
        Some(Kernel::Sma)
    } else if name == "EMA"@ {
        Some(Kernel::Ema)
    } else if name == "MACD"@ {
        Some(Kernel::Macd)
    } else if name == "BBANDS"@ {
        Some(Kernel::Bbands)
    } else if name == "ATR"@ {
        Some(Kernel::Atr)
    } else if name == "STOCH"@ {
        Some(Kernel::Stoch)
    } else if name == "ADX"@ {
        Some(Kernel::Adx)
    } else if name == "OBV"@ {
        Some(Kernel::Obv)
    } else if name == "CCI"@ {
        Some(Kernel::Cci)
    } else if name == "STOCHRSI"@ {
        Some(Kernel::StochRsi)
    } else if name == "MOM"@ {
        Some(Kernel::Mom)
    } else if name == "MFI"@ {
        Some(Kernel::Mfi)
    } else if name == "WMA"@ {
        Some(Kernel::Wma)
    } else if name == "DEMA"@ {
        Some(Kernel::Dema)
    } else if name == "TEMA"@ {
        Some(Kernel::Tema)
    } else if name == "TRIMA"@ {
        Some(Kernel::Trima)
    } else if name == "KAMA"@ {
        Some(Kernel::Kama)
    } else if name == "NATR"@ {
        Some(Kernel::Natr)
    } else if name == "WILLR"@ {
        Some(Kernel::Willr)
    } else if name == "ROC"@ {
        Some(Kernel::Roc)
    } else if name == "STDDEV"@ {
        Some(Kernel::Stddev)
    } else if name == "PPO"@ {
        Some(Kernel::Ppo)
    } else if name == "ADOSC"@ {
        Some(Kernel::Adosc)
    } else if name == "SAR"@ {
        Some(Kernel::Sar)
    } else if name == "AD"@ {
        Some(Kernel::Ad)
    } else if name == "TRANGE"@ {
        Some(Kernel::Trange)
    } else if name == "PVT"@ {
        Some(Kernel::Pvt)
    } else {
        match pattern_for(name) {
            Some(p) => Some(Kernel::Pattern(p)),
            None => None,
        }
    }
}

/// The canonical function name of an already upper-cased indicator name:
/// the short pattern names gain their `CDL` prefix, everything else is kept.
pub open spec fn canonical_name(upper: Seq<char>) -> Seq<char> {
    if upper == "ENGULFING"@ {
        "CDLENGULFING"@
    } else if upper == "HAMMER"@ {
        "CDLHAMMER"@
    } else if upper == "MORNINGSTAR"@ {
        "CDLMORNINGSTAR"@
    } else {
        upper
    }
}

impl Kernel {
    /// Looks a kernel up by its exact canonical name.
    pub fn from_canonical(name: &str) -> (r: Option<Kernel>)
        ensures
            r == kernel_for(name@),
    {
        if same_text(name, "RSI") {
            Some(Kernel::Rsi)
        } else if same_text(name, "SMA") {
            Some(Kernel::Sma)
        } else if same_text(name, "EMA") {
            Some(Kernel::Ema)
        } else if same_text(name, "MACD") {
            Some(Kernel::Macd)
        } else if same_text(name, "BBANDS") {
            Some(Kernel::Bbands)
        } else if same_text(name, "ATR") {
            Some(Kernel::Atr)
        } else if same_text(name, "STOCH") {
            Some(Kernel::Stoch)
        } else if same_text(name, "ADX") {
            Some(Kernel::Adx)
        } else if same_text(name, "OBV") {
            Some(Kernel::Obv)
        } else if same_text(name, "CCI") {
            Some(Kernel::Cci)
        } else if same_text(name, "STOCHRSI") {
            Some(Kernel::StochRsi)
        } else if same_text(name, "MOM") {
            Some(Kernel::Mom)
        } else if same_text(name, "MFI") {
            Some(Kernel::Mfi)
        } else if same_text(name, "WMA") {
            Some(Kernel::Wma)
        } else if same_text(name, "DEMA") {
            Some(Kernel::Dema)
        } else if same_text(name, "TEMA") {
            Some(Kernel::Tema)
        } else if same_text(name, "TRIMA") {
            Some(Kernel::Trima)
        } else if same_text(name, "KAMA") {
            Some(Kernel::Kama)
        } else if same_text(name, "NATR") {
            Some(Kernel::Natr)
        } else if same_text(name, "WILLR") {
            Some(Kernel::Willr)
        } else if same_text(name, "ROC") {
            Some(Kernel::Roc)
        } else if same_text(name, "STDDEV") {
            Some(Kernel::Stddev)
        } else if same_text(name, "PPO") {
            Some(Kernel::Ppo)
        } else if same_text(name, "ADOSC") {
            Some(Kernel::Adosc)
        } else if same_text(name, "SAR") {
            Some(Kernel::Sar)
        } else if same_text(name, "AD") {
            Some(Kernel::Ad)
        } else if same_text(name, "TRANGE") {
            Some(Kernel::Trange)
        } else if same_text(name, "PVT") {
            Some(Kernel::Pvt)
        } else {
            match CandlePattern::from_canonical(name) {
                Some(p) => Some(Kernel::Pattern(p)),
                None => None,
            }
        }
    }

    /// The canonical name of this kernel.
    pub fn name(&self) -> (r: &'static str)
        ensures
            r@ == kernel_name(*self),
    {
        match self {
            Kernel::Rsi => "RSI",
            Kernel::Sma => "SMA",
            Kernel::Ema => "EMA",
            Kernel::Macd => "MACD",
            Kernel::Bbands => "BBANDS",
            Kernel::Atr => "ATR",
            Kernel::Stoch => "STOCH",
            Kernel::Adx => "ADX",
            Kernel::Obv => "OBV",
            Kernel::Cci => "CCI",
            Kernel::StochRsi => "STOCHRSI",
            Kernel::Mom => "MOM",
            Kernel::Mfi => "MFI",
            Kernel::Wma => "WMA",
            Kernel::Dema => "DEMA",
            Kernel::Tema => "TEMA",
            Kernel::Trima => "TRIMA",
            Kernel::Kama => "KAMA",
            Kernel::Natr => "NATR",
            Kernel::Willr => "WILLR",
            Kernel::Roc => "ROC",
            Kernel::Stddev => "STDDEV",
            Kernel::Ppo => "PPO",
            Kernel::Adosc => "ADOSC",
            Kernel::Sar => "SAR",
            Kernel::Ad => "AD",
            Kernel::Trange => "TRANGE",
            Kernel::Pvt => "PVT",
            Kernel::Pattern(p) => p.name(),
        }
    }
}

/// Canonical function name of an indicator name that is already upper case.
pub fn function_name_of_upper(upper: &str) -> (r: String)
    ensures
        r@ == canonical_name(upper@),
{
    if same_text(upper, "ENGULFING") {
        String::from_str("CDLENGULFING")
    } else if same_text(upper, "HAMMER") {
        String::from_str("CDLHAMMER")
    } else if same_text(upper, "MORNINGSTAR") {
        String::from_str("CDLMORNINGSTAR")
    } else {
        upper.to_owned()
    }
}

/// Whether an upper-case function name names one of the kernels.
pub fn is_available_upper(upper: &str) -> (r: bool)
    ensures
        r == kernel_for(upper@) is Some,
{
    Kernel::from_canonical(upper).is_some()
}

/// Entry point of the numeric backend: name normalisation and availability.
pub struct TaLibAbstract;

impl TaLibAbstract {
    /// Whether `function_name`, upper-cased, names an available kernel.
    pub fn is_function_available(function_name: &str) -> (r: bool)
        ensures
            r == kernel_for(upper_of(function_name@)) is Some,
    {
        let upper = to_upper(function_name);
        is_available_upper(upper.as_str())
    }

    /// The canonical function name for a user-facing indicator name.
    pub fn get_function_name(indicator_name: &str) -> (r: String)
        ensures
            r@ == canonical_name(upper_of(indicator_name@)),
    {
        let upper = to_upper(indicator_name);
        function_name_of_upper(upper.as_str())
    }
}

/// Indicator-level view over the backend's names.
pub struct IndicatorCalculator;

impl IndicatorCalculator {
    /// The backend function name used for an indicator.
    pub fn get_ta_function_name(indicator_name: &str) -> (r: String)
        ensures
            r@ == canonical_name(upper_of(indicator_name@)),
    {
        TaLibAbstract::get_function_name(indicator_name)
    }

    /// Whether an indicator can be computed by the backend.
    pub fn is_indicator_available(indicator_name: &str) -> (r: bool)
        ensures
            r == kernel_for(upper_of(canonical_name(upper_of(indicator_name@)))) is Some,
    {
        let f = TaLibAbstract::get_function_name(indicator_name);
        TaLibAbstract::is_function_available(f.as_str())
    }

    /// The indicator names advertised to users, in a fixed order.
    pub fn get_supported_indicators() -> (r: Vec<String>)
        ensures
            r@.len() == supported_indicators().len(),
            forall|i: int| 0 <= i < r@.len() ==> #[trigger] r@[i]@ == supported_indicators()[i],
    {
        let mut v: Vec<String> = Vec::new();
        v.push(String::from_str("RSI"));
        v.push(String::from_str("SMA"));
        v.push(String::from_str("EMA"));
        v.push(String::from_str("MACD"));
        v.push(String::from_str("BBANDS"));
        v.push(String::from_str("ATR"));
        v.push(String::from_str("STOCH"));
        v.push(String::from_str("ADX"));
        v.push(String::from_str("OBV"));
        v.push(String::from_str("CDLENGULFING"));
        v.push(String::from_str("CDLHAMMER"));
        v.push(String::from_str("CDLMORNINGSTAR"));
        v
    }
}

/// The advertised indicator names.
pub open spec fn supported_indicators() -> Seq<Seq<char>> {
    seq![
        "RSI"@, "SMA"@, "EMA"@, "MACD"@, "BBANDS"@, "ATR"@, "STOCH"@, "ADX"@, "OBV"@,
        "CDLENGULFING"@, "CDLHAMMER"@, "CDLMORNINGSTAR"@,
    ]
}

} // verus!
