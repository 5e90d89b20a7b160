//! The shape of a kernel's emission: which indices it must cover for a
//! series of a given length, and the indexed points built from the numeric
//! backend's raw output (a begin index and a run of values or pattern codes).

use vstd::prelude::*;
use crate::names::{Kernel, kernel_for, canonical_name, upper_of, TaLibAbstract};
use crate::params::Param;
use crate::kernel::{KernelInput, KernelError, input_valid, input_kernel, warm_up, resolve_input, resolve_kernel_input, lemma_warm_up_bounded};

verus! {

/// Where the backend's output must begin and how many values it must hold.
#[derive(Clone, Copy, Debug, PartialEq, Eq, Structural)]
pub struct EmissionPlan {
    pub first_index: usize,
    pub count: usize,
}

/// The emission owed for a series of `n` candles: nothing for an empty
/// series, an `InsufficientData` verdict for a series shorter than the
/// warm-up, else one point per index from the warm-up to the last candle
/// (none when the series is exactly as long as the warm-up).
pub open spec fn plan_spec(i: KernelInput, n: int) -> Result<EmissionPlan, KernelError> {
    if n == 0 {
        Ok(EmissionPlan { first_index: warm_up(i) as usize, count: 0 })
    } else if n < warm_up(i) {
        Err(KernelError::InsufficientData)
    } else {
        Ok(EmissionPlan { first_index: warm_up(i) as usize, count: (n - warm_up(i)) as usize })
    }
}

/// Indices strictly ascending.
pub open spec fn strictly_increasing<T>(pts: Seq<(usize, T)>) -> bool {
    forall|a: int, b: int| 0 <= a < b < pts.len() ==> pts[a].0 < pts[b].0
}

/// Every index in `lo .. hi`.
pub open spec fn indices_within<T>(pts: Seq<(usize, T)>, lo: int, hi: int) -> bool {
    forall|a: int| 0 <= a < pts.len() ==> lo <= #[trigger] pts[a].0 < hi
}

/// The points of a run of values that starts at index `begin`.
pub open spec fn series_points<T>(begin: int, values: Seq<T>) -> Seq<(usize, T)> {
    Seq::new(values.len(), |a: int| ((begin + a) as usize, values[a]))
}

/// Direction of a detected candlestick pattern.
#[derive(Clone, Copy, Debug, PartialEq, Eq, Structural)]
pub enum PatternType {
    Bullish,
    Bearish,
}

/// A detected pattern: which one, its direction, and its strength in
/// hundredths (so `100` is full strength).
#[derive(Clone, Copy, Debug, PartialEq, Eq, Structural)]
pub struct PatternVerdict {
    pub kernel: Kernel,
    pub pattern_type: PatternType,
    pub strength_percent: u32,
}

/// The verdict for a non-zero backend code: its sign gives the direction and
/// its magnitude, capped at 100, the strength.
pub open spec fn verdict_of(k: Kernel, code: i32) -> PatternVerdict {
    let mag: int = if code < 0 { -(code as int) } else { code as int };
    PatternVerdict {
        kernel: k,
        pattern_type: if code > 0 { PatternType::Bullish } else { PatternType::Bearish },
        strength_percent: if mag > 100 { 100u32 } else { mag as u32 },
    }
}

/// The verdicts of a run of pattern codes that starts at index `begin`:
/// one per non-zero code, in order.
pub open spec fn pattern_points(k: Kernel, begin: int, codes: Seq<i32>) -> Seq<(usize, PatternVerdict)>
    decreases codes.len(),
{
    if codes.len() == 0 {
        Seq::empty()
    } else {
        let prev = pattern_points(k, begin, codes.drop_last());
        let c = codes.last();
        if c == 0 {
            prev
        } else {
            prev.push(((begin + codes.len() - 1) as usize, verdict_of(k, c)))
        }
    }
}

/// Pattern verdicts lie in `begin .. begin + codes.len()`, strictly ascending.
pub proof fn lemma_pattern_points_shape(k: Kernel, begin: int, codes: Seq<i32>)
    requires
        0 <= begin,
        begin + codes.len() <= usize::MAX,
    ensures
        strictly_increasing(pattern_points(k, begin, codes)),
        indices_within(pattern_points(k, begin, codes), begin, begin + codes.len()),
        pattern_points(k, begin, codes).len() <= codes.len(),
    decreases codes.len(),
{
    if codes.len() > 0 {
        lemma_pattern_points_shape(k, begin, codes.drop_last());
    }
}

/// Checks the backend's output against the plan and indexes its values.
pub fn assemble_series<T: Copy>(plan: &EmissionPlan, begin: usize, values: &Vec<T>) -> (r: Result<Vec<(usize, T)>, KernelError>)
    requires
        plan.first_index + plan.count <= usize::MAX,
    ensures
        r is Ok <==> (begin == plan.first_index && values@.len() == plan.count),
        r is Err ==> r == Err::<Vec<(usize, T)>, KernelError>(KernelError::KernelInternal),
        r is Ok ==> r->Ok_0@ == series_points(begin as int, values@),
        r is Ok ==> strictly_increasing(r->Ok_0@),
        r is Ok ==> indices_within(r->Ok_0@, plan.first_index as int, plan.first_index + plan.count),
{
    if begin != plan.first_index || values.len() != plan.count {
        return Err(KernelError::KernelInternal);
    }
    let mut out: Vec<(usize, T)> = Vec::new();
    let mut i: usize = 0;
    while i < values.len()
        invariant
            i <= values@.len(),
            begin + values@.len() <= usize::MAX,
            out@ == series_points(begin as int, values@.subrange(0, i as int)),
        decreases values@.len() - i,
    {
        out.push((begin + i, values[i]));
        i = i + 1;
        proof {
            assert(out@ =~= series_points(begin as int, values@.subrange(0, i as int)));
        }
    }
    proof {
        assert(values@.subrange(0, i as int) =~= values@);
    }
    Ok(out)
}

fn verdict(k: Kernel, code: i32) -> (r: PatternVerdict)
    requires
        code != 0,
    ensures
        r == verdict_of(k, code),
{
    let mag: i64 = if code < 0 { -(code as i64) } else { code as i64 };
    PatternVerdict {
        kernel: k,
        pattern_type: if code > 0 { PatternType::Bullish } else { PatternType::Bearish },
        strength_percent: if mag > 100 { 100u32 } else { mag as u32 },
    }
}

/// Checks the backend's pattern codes against the plan and keeps a verdict
/// for every candle whose code is non-zero.
pub fn assemble_patterns(kernel: Kernel, plan: &EmissionPlan, begin: usize, codes: &Vec<i32>) -> (r: Result<Vec<(usize, PatternVerdict)>, KernelError>)
    requires
        plan.first_index + plan.count <= usize::MAX,
    ensures
        r is Ok <==> (begin == plan.first_index && codes@.len() == plan.count),
        r is Err ==> r == Err::<Vec<(usize, PatternVerdict)>, KernelError>(KernelError::KernelInternal),
        r is Ok ==> r->Ok_0@ == pattern_points(kernel, begin as int, codes@),
        r is Ok ==> strictly_increasing(r->Ok_0@),
        r is Ok ==> indices_within(r->Ok_0@, plan.first_index as int, plan.first_index + plan.count),
{
    if begin != plan.first_index || codes.len() != plan.count {
        return Err(KernelError::KernelInternal);
    }
    let mut out: Vec<(usize, PatternVerdict)> = Vec::new();
    let mut i: usize = 0;
    while i < codes.len()
        invariant
            i <= codes@.len(),
            begin + codes@.len() <= usize::MAX,
            out@ == pattern_points(kernel, begin as int, codes@.subrange(0, i as int)),
        decreases codes@.len() - i,
    {
        let c = codes[i];
        proof {
            let next = codes@.subrange(0, i + 1);
            assert(next.drop_last() =~= codes@.subrange(0, i as int));
        }
        if c != 0 {
            out.push((begin + i, verdict(kernel, c)));
        }
        i = i + 1;
    }
    proof {
        assert(codes@.subrange(0, i as int) =~= codes@);
        lemma_pattern_points_shape(kernel, begin as int, codes@);
    }
    Ok(out)
}

/// The emission owed for a series of `n` candles under a resolved input.
pub fn plan_emission(input: &KernelInput, n: usize) -> (r: Result<EmissionPlan, KernelError>)
    requires
        input_valid(*input),
    ensures
        r == plan_spec(*input, n as int),
        r is Ok ==> r->Ok_0.first_index + r->Ok_0.count <= usize::MAX,
        r is Ok && n > 0 ==> r->Ok_0.first_index + r->Ok_0.count == n,
        r is Err <==> 0 < n < warm_up(*input),
{
    let w = input.warm_up();
    if n == 0 {
        Ok(EmissionPlan { first_index: w, count: 0 })
    } else if n < w {
        Err(KernelError::InsufficientData)
    } else {
        Ok(EmissionPlan { first_index: w, count: n - w })
    }
}

/// What preparing a kernel run yields for a canonical function name.
pub open spec fn prepare_spec(function_name: Seq<char>, ps: Seq<Param>) -> Result<KernelInput, KernelError> {
    match kernel_for(function_name) {
        None => Err(KernelError::UnsupportedIndicator),
        Some(k) => resolve_input(k, ps),
    }
}

/// Picks the kernel for a canonical function name and resolves its parameters.
pub fn prepare_canonical(function_name: &str, params: &Vec<Param>) -> (r: Result<KernelInput, KernelError>)
    ensures
        r == prepare_spec(function_name@, params@),
        r is Ok ==> input_valid(r->Ok_0),
{
    match Kernel::from_canonical(function_name) {
        None => Err(KernelError::UnsupportedIndicator),
        Some(k) => resolve_kernel_input(k, params),
    }
}

/// Picks the kernel for a user-facing indicator name and resolves its parameters.
pub fn prepare_kernel(indicator_name: &str, params: &Vec<Param>) -> (r: Result<KernelInput, KernelError>)
    ensures
        r == prepare_spec(canonical_name(upper_of(indicator_name@)), params@),
        r is Ok ==> input_valid(r->Ok_0),
{
    let f = TaLibAbstract::get_function_name(indicator_name);
    prepare_canonical(f.as_str(), params)
}

/// Every kernel's emission lies past its warm-up and inside the series, with
/// strictly ascending indices; a series exactly as long as the warm-up
/// yields no point.
pub proof fn law_emission_bounds<T>(input: KernelInput, n: int, begin: int, values: Seq<T>)
    requires
        input_valid(input),
        0 <= n <= usize::MAX,
        plan_spec(input, n) is Ok,
        begin == plan_spec(input, n)->Ok_0.first_index,
        values.len() == plan_spec(input, n)->Ok_0.count,
    ensures
        indices_within(series_points(begin, values), warm_up(input), n),
        strictly_increasing(series_points(begin, values)),
{
    lemma_warm_up_bounded(input);
}

/// Pattern kernels emit only inside the series and past the warm-up, with
/// strictly ascending indices.
pub proof fn law_pattern_emission_bounds(input: KernelInput, n: int, begin: int, codes: Seq<i32>)
    requires
        input_valid(input),
        0 <= n <= usize::MAX,
        plan_spec(input, n) is Ok,
        begin == plan_spec(input, n)->Ok_0.first_index,
        codes.len() == plan_spec(input, n)->Ok_0.count,
    ensures
        indices_within(pattern_points(input_kernel(input), begin, codes), warm_up(input), n),
        strictly_increasing(pattern_points(input_kernel(input), begin, codes)),
{
    lemma_warm_up_bounded(input);
    lemma_pattern_points_shape(input_kernel(input), begin, codes);
}

/// A series exactly as long as the warm-up owes an empty emission; one
/// candle more owes exactly one point, at the warm-up index.
pub proof fn law_warm_up_exclusive(input: KernelInput, n: int)
    requires
        input_valid(input),
        n == warm_up(input),
    ensures
        plan_spec(input, n) is Ok,
        plan_spec(input, n)->Ok_0.count == 0,
        plan_spec(input, n + 1) is Ok,
        plan_spec(input, n + 1)->Ok_0.count == 1,
        plan_spec(input, n + 1)->Ok_0.first_index == n,
{
    lemma_warm_up_bounded(input);
}

/// A series shorter than the warm-up, and not empty, is insufficient.
pub proof fn law_short_series_insufficient(input: KernelInput, n: int)
    requires
        input_valid(input),
        0 < n < warm_up(input),
    ensures
        plan_spec(input, n) == Err::<EmissionPlan, KernelError>(KernelError::InsufficientData),
{
}

/// An empty series owes an empty emission, whatever the kernel.
pub proof fn law_empty_series(input: KernelInput)
    requires
        input_valid(input),
    ensures
        plan_spec(input, 0) is Ok,
        plan_spec(input, 0)->Ok_0.count == 0,
{
}

/// The points of an emission with each candle index replaced by that
/// candle's open time.
pub open spec fn timed_points<T>(pts: Seq<(usize, T)>, open_time: Seq<i64>) -> Seq<(i64, T)> {
    Seq::new(pts.len(), |a: int| (open_time[pts[a].0 as int], pts[a].1))
}

/// Open times strictly ascending.
pub open spec fn times_ascending(open_time: Seq<i64>) -> bool {
    forall|a: int, b: int| 0 <= a < b < open_time.len() ==> open_time[a] < open_time[b]
}

/// Replaces each candle index of an emission by the candle's open time.
/// Over a series whose open times ascend, the times of an emission ascend.
pub fn attach_times<T: Copy>(pts: &Vec<(usize, T)>, open_time: &Vec<i64>) -> (r: Vec<(i64, T)>)
    requires
        forall|a: int| 0 <= a < pts@.len() ==> #[trigger] pts@[a].0 < open_time@.len(),
    ensures
        r@ == timed_points(pts@, open_time@),
        times_ascending(open_time@) && strictly_increasing(pts@) ==>
            forall|a: int, b: int| 0 <= a < b < r@.len() ==> r@[a].0 < r@[b].0,
{
    let mut out: Vec<(i64, T)> = Vec::new();
    let mut i: usize = 0;
    while i < pts.len()
        invariant
            i <= pts@.len(),
            forall|a: int| 0 <= a < pts@.len() ==> #[trigger] pts@[a].0 < open_time@.len(),
            out@ == timed_points(pts@.subrange(0, i as int), open_time@),
        decreases pts@.len() - i,
    {
        let (idx, v) = pts[i];
        out.push((open_time[idx], v));
        i = i + 1;
        proof {
            assert(out@ =~= timed_points(pts@.subrange(0, i as int), open_time@));
        }
    }
    proof {
        assert(pts@.subrange(0, i as int) =~= pts@);
        if times_ascending(open_time@) && strictly_increasing(pts@) {
            assert forall|a: int, b: int| 0 <= a < b < out@.len() implies out@[a].0 < out@[b].0 by {
                assert(pts@[a].0 < pts@[b].0);
            }
        }
    }
    out
}

} // verus!
