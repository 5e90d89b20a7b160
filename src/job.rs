//! Units of work: an indicator configuration turned into a job, and the
//! textual keys that identify it in the caches.

use vstd::prelude::*;
use crate::text::same_text;

verus! {

/// What `str::to_lowercase` makes of a character sequence.
pub uninterp spec fn lower_of(s: Seq<char>) -> Seq<char>;

/// Relies on `str::to_lowercase`: the Unicode lower-case mapping, which
/// depends on the characters alone and leaves an empty string empty.
#[verifier::external_body]
fn to_lower(s: &str) -> (r: String)
    ensures
        r@ == lower_of(s@),
        s@.len() == 0 ==> r@.len() == 0,
{
    s.to_lowercase()
}

/// The family an indicator belongs to.
#[derive(Clone, Copy, Debug, PartialEq, Eq, Structural)]
pub enum IndicatorType {
    Oscillator,
    Overlap,
    Volume,
    Volatility,
    Pattern,
}

/// The lower-case label of a family.
pub open spec fn type_label(t: IndicatorType) -> Seq<char> {
    match t {
        IndicatorType::Oscillator => "oscillator"@,
        IndicatorType::Overlap => "overlap"@,
        IndicatorType::Volume => "volume"@,
        IndicatorType::Volatility => "volatility"@,
        IndicatorType::Pattern => "pattern"@,
    }
}

/// The family named by a lower-case label; unknown labels mean oscillator.
pub open spec fn type_of_label(s: Seq<char>) -> IndicatorType {
    if s == "overlap"@ {
        IndicatorType::Overlap
    } else if s == "volume"@ {
        IndicatorType::Volume
    } else if s == "volatility"@ {
        IndicatorType::Volatility
    } else if s == "pattern"@ {
        IndicatorType::Pattern
    } else {
        IndicatorType::Oscillator
    }
}

impl IndicatorType {
    /// The lower-case label of this family.
    pub fn as_str(&self) -> (r: &'static str)
        ensures
            r@ == type_label(*self),
    {
        match self {
            IndicatorType::Oscillator => "oscillator",
            IndicatorType::Overlap => "overlap",
            IndicatorType::Volume => "volume",
            IndicatorType::Volatility => "volatility",
            IndicatorType::Pattern => "pattern",
        }
    }

    /// The lower-case label of this family, as an owned string.
    pub fn to_string(&self) -> (r: String)
        ensures
            r@ == type_label(*self),
    {
        String::from_str(self.as_str())
    }

    /// The family of an already lower-cased label.
    pub fn from_lowercase(s: &str) -> (r: IndicatorType)
        ensures
            r == type_of_label(s@),
    {
        if same_text(s, "overlap") {
            IndicatorType::Overlap
        } else if same_text(s, "volume") {
            IndicatorType::Volume
        } else if same_text(s, "volatility") {
            IndicatorType::Volatility
        } else if same_text(s, "pattern") {
            IndicatorType::Pattern
        } else {
            IndicatorType::Oscillator
        }
    }

    /// The family of a label in any letter case.
    pub fn from_name(s: &str) -> (r: IndicatorType)
        ensures
            r == type_of_label(lower_of(s@)),
    {
        let l = to_lower(s);
        IndicatorType::from_lowercase(l.as_str())
    }
}

impl<'a> From<&'a str> for IndicatorType {
    /// The family of a label in any letter case.
    fn from(s: &'a str) -> (r: IndicatorType) {
        IndicatorType::from_name(s)
    }
}

impl<'a> vstd::std_specs::convert::FromSpecImpl<&'a str> for IndicatorType {
    open spec fn obeys_from_spec() -> bool {
        true
    }

    open spec fn from_spec(s: &'a str) -> IndicatorType {
        type_of_label(lower_of(s@))
    }
}

/// A job: which series to compute, identified by symbol, interval, indicator
/// name and the canonical JSON text of its parameters.
#[derive(Debug)]
pub struct CalculationJob {
    pub symbol: String,
    pub interval: String,
    pub indicator_type: IndicatorType,
    pub indicator_name: String,
    pub parameters: String,
}

impl Clone for CalculationJob {
    fn clone(&self) -> (r: Self)
        ensures
            r == *self,
    {
        CalculationJob {
            symbol: self.symbol.clone(),
            interval: self.interval.clone(),
            indicator_type: self.indicator_type,
            indicator_name: self.indicator_name.clone(),
            parameters: self.parameters.clone(),
        }
    }
}

/// `symbol:interval:name:parameters`, the key of the completeness cache.
pub open spec fn fingerprint_text(symbol: Seq<char>, interval: Seq<char>, name: Seq<char>, params: Seq<char>) -> Seq<char> {
    symbol + ":"@ + interval + ":"@ + name + ":"@ + params
}

/// `job:symbol:interval:type:name:parameters`, the key of the in-flight lease.
pub open spec fn lease_text(symbol: Seq<char>, interval: Seq<char>, t: IndicatorType, name: Seq<char>, params: Seq<char>) -> Seq<char> {
    "job:"@ + symbol + ":"@ + interval + ":"@ + type_label(t) + ":"@ + name + ":"@ + params
}

/// The completeness key of a job.
pub open spec fn job_fingerprint(j: CalculationJob) -> Seq<char> {
    fingerprint_text(j.symbol@, j.interval@, j.indicator_name@, j.parameters@)
}

/// The lease key of a job.
pub open spec fn job_lease_key(j: CalculationJob) -> Seq<char> {
    lease_text(j.symbol@, j.interval@, j.indicator_type, j.indicator_name@, j.parameters@)
}

/// Joins four fields with `:` between them.
pub fn fingerprint_of(symbol: &str, interval: &str, name: &str, params: &str) -> (r: String)
    ensures
        r@ == fingerprint_text(symbol@, interval@, name@, params@),
{
    let mut s = String::from_str(symbol);
    s.append(":");
    s.append(interval);
    s.append(":");
    s.append(name);
    s.append(":");
    s.append(params);
    s
}

impl CalculationJob {
    pub fn new(
        symbol: String,
        interval: String,
        indicator_type: IndicatorType,
        indicator_name: String,
        parameters: String,
    ) -> (r: Self)
        ensures
            r.symbol == symbol,
            r.interval == interval,
            r.indicator_type == indicator_type,
            r.indicator_name == indicator_name,
            r.parameters == parameters,
    {
        CalculationJob { symbol, interval, indicator_type, indicator_name, parameters }
    }

    /// The in-flight lease key of this job.
    pub fn cache_key(&self) -> (r: String)
        ensures
            r@ == job_lease_key(*self),
    {
        let mut s = String::from_str("job:");
        s.append(self.symbol.as_str());
        s.append(":");
        s.append(self.interval.as_str());
        s.append(":");
        s.append(self.indicator_type.as_str());
        s.append(":");
        s.append(self.indicator_name.as_str());
        s.append(":");
        s.append(self.parameters.as_str());
        s
    }

    /// The completeness key of this job.
    pub fn fingerprint(&self) -> (r: String)
        ensures
            r@ == job_fingerprint(*self),
    {
        fingerprint_of(self.symbol.as_str(), self.interval.as_str(), self.indicator_name.as_str(), self.parameters.as_str())
    }
}

/// `prefix:a:b`.
pub open spec fn key2(prefix: Seq<char>, a: Seq<char>, b: Seq<char>) -> Seq<char> {
    prefix + ":"@ + a + ":"@ + b
}

/// Key of a cached candle series: `candles:symbol:interval`.
pub fn candle_data_key(symbol: &str, interval: &str) -> (r: String)
    ensures
        r@ == key2("candles"@, symbol@, interval@),
{
    let mut s = String::from_str("candles");
    s.append(":");
    s.append(symbol);
    s.append(":");
    s.append(interval);
    s
}

/// Key of a cached indicator series: `indicator:symbol:interval:name:parameters`.
pub fn indicator_key(symbol: &str, interval: &str, indicator_name: &str, parameters_json: &str) -> (r: String)
    ensures
        r@ == "indicator:"@ + fingerprint_text(symbol@, interval@, indicator_name@, parameters_json@),
{
    let f = fingerprint_of(symbol, interval, indicator_name, parameters_json);
    let s = String::from_str("indicator:").concat(f.as_str());
    s
}

/// Key of a cached intermediate result: `intermediate:symbol:interval:kind:parameters`.
pub fn intermediate_key(symbol: &str, interval: &str, calculation_type: &str, parameters_json: &str) -> (r: String)
    ensures
        r@ == "intermediate:"@ + fingerprint_text(symbol@, interval@, calculation_type@, parameters_json@),
{
    let f = fingerprint_of(symbol, interval, calculation_type, parameters_json);
    let s = String::from_str("intermediate:").concat(f.as_str());
    s
}

} // verus!
