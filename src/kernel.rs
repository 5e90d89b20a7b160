//! What a kernel run needs and must produce: resolved parameters with their
//! domains, warm-up lengths, and the indexed emission built from the
//! numeric backend's raw output.

use vstd::prelude::*;
use crate::names::Kernel;
use crate::patterns::{pattern_warm_up, lemma_pattern_warm_up_bounded};
use crate::params::{Param, integer_param, get_integer_param};

verus! {

/// Largest period the numeric backend accepts.
pub const MAX_PERIOD: i64 = 100000;

/// Largest moving-average type code (SMA, EMA, WMA, DEMA, TEMA, TRIMA, KAMA, MAMA, T3).
pub const MAX_MA_TYPE: i64 = 8;

/// Why a kernel produced nothing.
#[derive(Clone, Copy, Debug, PartialEq, Eq, Structural)]
pub enum KernelError {
    /// The series is not empty but shorter than the kernel's warm-up.
    InsufficientData,
    /// A recognised parameter lies outside its domain.
    InvalidParameter,
    /// The name does not denote any kernel.
    UnsupportedIndicator,
    /// The backend's output does not have the promised shape.
    KernelInternal,
}

/// A kernel together with its resolved, validated integer parameters.
#[derive(Clone, Copy, Debug, PartialEq, Eq, Structural)]
pub enum KernelInput {
    /// Kernels driven by a single `period`.
    Period { kernel: Kernel, period: i32 },
    Macd { fast_period: i32, slow_period: i32, signal_period: i32 },
    Bbands { period: i32, ma_type: i32 },
    Stoch { k_period: i32, slowing: i32, d_period: i32, ma_type: i32 },
    StochRsi { period: i32, k_period: i32, d_period: i32, ma_type: i32 },
    /// PPO: the spread of two moving averages, in percent.
    Ppo { fast_period: i32, slow_period: i32 },
    /// Chaikin A/D oscillator.
    Adosc { fast_period: i32, slow_period: i32 },
    /// Kernels without integer parameters.
    Plain { kernel: Kernel },
}

/// Kernels whose only integer parameter is `period`.
pub open spec fn is_period_kernel(k: Kernel) -> bool {
    k == Kernel::Rsi || k == Kernel::Sma || k == Kernel::Ema || k == Kernel::Atr || k == Kernel::Adx
        || k == Kernel::Cci || k == Kernel::Mom || k == Kernel::Mfi || k == Kernel::Wma || k == Kernel::Dema
        || k == Kernel::Tema || k == Kernel::Trima || k == Kernel::Kama || k == Kernel::Natr || k == Kernel::Willr
        || k == Kernel::Roc || k == Kernel::Stddev
}

/// Default `period` of a single-period kernel.
pub open spec fn default_period(k: Kernel) -> i64 {
    match k {
        Kernel::Sma | Kernel::Kama => 20,
        Kernel::Ema => 9,
        Kernel::Mom | Kernel::Roc => 10,
        Kernel::Stddev => 5,
        Kernel::Wma | Kernel::Dema | Kernel::Tema | Kernel::Trima => 30,
        _ => 14,
    }
}

/// Smallest `period` a single-period kernel accepts.
pub open spec fn min_period(k: Kernel) -> i64 {
    match k {
        Kernel::Atr | Kernel::Mom | Kernel::Natr | Kernel::Roc => 1,
        _ => 2,
    }
}

pub open spec fn in_domain(v: i64, lo: i64) -> bool {
    lo <= v <= MAX_PERIOD
}

pub open spec fn ma_in_domain(v: i64) -> bool {
    0 <= v <= MAX_MA_TYPE
}

/// Parameter resolution: read each recognised parameter by name with its
/// default, then check its domain.
pub open spec fn resolve_input(k: Kernel, ps: Seq<Param>) -> Result<KernelInput, KernelError> {
    if is_period_kernel(k) {
        let p = integer_param(ps, "period"@, default_period(k));
        if in_domain(p, min_period(k)) {
            Ok(KernelInput::Period { kernel: k, period: p as i32 })
        } else {
            Err(KernelError::InvalidParameter)
        }
    } else if k == Kernel::Macd {
        let f = integer_param(ps, "fast_period"@, 12);
        let s = integer_param(ps, "slow_period"@, 26);
        let g = integer_param(ps, "signal_period"@, 9);
        if in_domain(f, 2) && in_domain(s, 2) && in_domain(g, 1) && f < s {
            Ok(KernelInput::Macd { fast_period: f as i32, slow_period: s as i32, signal_period: g as i32 })
        } else {
            Err(KernelError::InvalidParameter)
        }
    } else if k == Kernel::Bbands {
        let p = integer_param(ps, "period"@, 20);
        let m = integer_param(ps, "ma_type"@, 0);
        if in_domain(p, 2) && ma_in_domain(m) {
            Ok(KernelInput::Bbands { period: p as i32, ma_type: m as i32 })
        } else {
            Err(KernelError::InvalidParameter)
        }
    } else if k == Kernel::Stoch {
        let kp = integer_param(ps, "k_period"@, 14);
        let sl = integer_param(ps, "slowing"@, 3);
        let d = integer_param(ps, "d_period"@, 3);
        let m = integer_param(ps, "ma_type"@, 0);
        if in_domain(kp, 1) && in_domain(sl, 1) && in_domain(d, 1) && ma_in_domain(m) {
            Ok(KernelInput::Stoch { k_period: kp as i32, slowing: sl as i32, d_period: d as i32, ma_type: m as i32 })
        } else {
            Err(KernelError::InvalidParameter)
        }
    } else if k == Kernel::StochRsi {
        let p = integer_param(ps, "period"@, 14);
        let kp = integer_param(ps, "k_period"@, 5);
        let d = integer_param(ps, "d_period"@, 3);
        let m = integer_param(ps, "ma_type"@, 0);
        if in_domain(p, 2) && in_domain(kp, 1) && in_domain(d, 1) && ma_in_domain(m) {
            Ok(KernelInput::StochRsi { period: p as i32, k_period: kp as i32, d_period: d as i32, ma_type: m as i32 })
        } else {
            Err(KernelError::InvalidParameter)
        }
    } else if k == Kernel::Ppo {
        let f = integer_param(ps, "fast_period"@, 12);
        let s = integer_param(ps, "slow_period"@, 26);
        if in_domain(f, 2) && in_domain(s, 2) && f < s {
            Ok(KernelInput::Ppo { fast_period: f as i32, slow_period: s as i32 })
        } else {
            Err(KernelError::InvalidParameter)
        }
    } else if k == Kernel::Adosc {
        let f = integer_param(ps, "fast_period"@, 3);
        let s = integer_param(ps, "slow_period"@, 10);
        if in_domain(f, 2) && in_domain(s, 2) {
            Ok(KernelInput::Adosc { fast_period: f as i32, slow_period: s as i32 })
        } else {
            Err(KernelError::InvalidParameter)
        }
    } else {
        Ok(KernelInput::Plain { kernel: k })
    }
}

/// Every parameter within the domain that resolution checks.
pub open spec fn input_valid(i: KernelInput) -> bool {
    match i {
        KernelInput::Period { kernel, period } => is_period_kernel(kernel) && in_domain(period as i64, min_period(kernel)),
        KernelInput::Macd { fast_period, slow_period, signal_period } =>
            in_domain(fast_period as i64, 2) && in_domain(slow_period as i64, 2) && in_domain(signal_period as i64, 1)
                && fast_period < slow_period,
        KernelInput::Bbands { period, ma_type } => in_domain(period as i64, 2) && ma_in_domain(ma_type as i64),
        KernelInput::Stoch { k_period, slowing, d_period, ma_type } =>
            in_domain(k_period as i64, 1) && in_domain(slowing as i64, 1) && in_domain(d_period as i64, 1)
                && ma_in_domain(ma_type as i64),
        KernelInput::StochRsi { period, k_period, d_period, ma_type } =>
            in_domain(period as i64, 2) && in_domain(k_period as i64, 1) && in_domain(d_period as i64, 1)
                && ma_in_domain(ma_type as i64),
        KernelInput::Ppo { fast_period, slow_period } =>
            in_domain(fast_period as i64, 2) && in_domain(slow_period as i64, 2) && fast_period < slow_period,
        KernelInput::Adosc { fast_period, slow_period } => in_domain(fast_period as i64, 2) && in_domain(slow_period as i64, 2),
        KernelInput::Plain { kernel } => !is_period_kernel(kernel) && kernel != Kernel::Macd
            && kernel != Kernel::Bbands && kernel != Kernel::Stoch && kernel != Kernel::StochRsi
            && kernel != Kernel::Ppo && kernel != Kernel::Adosc,
    }
}

/// Leading candles a moving average of the given type and period leaves without output.
pub open spec fn ma_lookback(ma_type: int, period: int) -> int {
    if period <= 1 {
        0
    } else if ma_type == 3 {
        2 * (period - 1)
    } else if ma_type == 4 {
        3 * (period - 1)
    } else if ma_type == 6 {
        period
    } else if ma_type == 7 {
        32
    } else if ma_type == 8 {
        6 * (period - 1)
    } else {
        period - 1
    }
}

/// The warm-up of a kernel: the number of leading candles without output,
/// which is also the index of its first output.
pub open spec fn warm_up(i: KernelInput) -> int {
    match i {
        KernelInput::Period { kernel, period } => match kernel {
            Kernel::Sma | Kernel::Ema | Kernel::Cci | Kernel::Wma | Kernel::Trima | Kernel::Willr | Kernel::Stddev => period - 1,
            Kernel::Dema => 2 * (period - 1),
            Kernel::Tema => 3 * (period - 1),
            Kernel::Adx => 2 * period - 1,
            _ => period as int,
        },
        KernelInput::Ppo { slow_period, .. } => slow_period - 1,
        KernelInput::Adosc { fast_period, slow_period } =>
            if fast_period > slow_period { fast_period - 1 } else { slow_period - 1 },
        KernelInput::Macd { slow_period, signal_period, .. } => (slow_period - 1) + (signal_period - 1),
        KernelInput::Bbands { period, ma_type } => ma_lookback(ma_type as int, period as int),
        KernelInput::Stoch { k_period, slowing, d_period, ma_type } =>
            (k_period - 1) + ma_lookback(ma_type as int, slowing as int) + ma_lookback(ma_type as int, d_period as int),
        KernelInput::StochRsi { period, k_period, d_period, ma_type } =>
            period + (k_period - 1) + ma_lookback(ma_type as int, d_period as int),
        KernelInput::Plain { kernel } => match kernel {
            Kernel::Pattern(p) => pattern_warm_up(p),
            Kernel::Sar | Kernel::Trange | Kernel::Pvt => 1,
            _ => 0,
        },
    }
}

/// The kernel an input runs.
pub open spec fn input_kernel(i: KernelInput) -> Kernel {
    match i {
        KernelInput::Period { kernel, .. } => kernel,
        KernelInput::Macd { .. } => Kernel::Macd,
        KernelInput::Bbands { .. } => Kernel::Bbands,
        KernelInput::Stoch { .. } => Kernel::Stoch,
        KernelInput::StochRsi { .. } => Kernel::StochRsi,
        KernelInput::Ppo { .. } => Kernel::Ppo,
        KernelInput::Adosc { .. } => Kernel::Adosc,
        KernelInput::Plain { kernel } => kernel,
    }
}

fn is_period_kernel_exec(k: Kernel) -> (r: bool)
    ensures
        r == is_period_kernel(k),
{
    matches!(
        k,
        Kernel::Rsi | Kernel::Sma | Kernel::Ema | Kernel::Atr | Kernel::Adx | Kernel::Cci | Kernel::Mom | Kernel::Mfi
            | Kernel::Wma | Kernel::Dema | Kernel::Tema | Kernel::Trima | Kernel::Kama | Kernel::Natr | Kernel::Willr
            | Kernel::Roc | Kernel::Stddev
    )
}

fn check(v: i64, lo: i64) -> (r: bool)
    ensures
        r == in_domain(v, lo),
{
    lo <= v && v <= MAX_PERIOD
}

fn check_ma(v: i64) -> (r: bool)
    ensures
        r == ma_in_domain(v),
{
    0 <= v && v <= MAX_MA_TYPE
}

/// Resolves and validates the integer parameters of `kernel`.
pub fn resolve_kernel_input(kernel: Kernel, params: &Vec<Param>) -> (r: Result<KernelInput, KernelError>)
    ensures
        r == resolve_input(kernel, params@),
        r is Ok ==> input_valid(r->Ok_0) && input_kernel(r->Ok_0) == kernel,
{
    if is_period_kernel_exec(kernel) {
        let d: i64 = match kernel {
            Kernel::Sma | Kernel::Kama => 20,
            Kernel::Ema => 9,
            Kernel::Mom | Kernel::Roc => 10,
            Kernel::Stddev => 5,
            Kernel::Wma | Kernel::Dema | Kernel::Tema | Kernel::Trima => 30,
            _ => 14,
        };
        let lo: i64 = match kernel {
            Kernel::Atr | Kernel::Mom | Kernel::Natr | Kernel::Roc => 1,
            _ => 2,
        };
        let p = get_integer_param(params, "period", d);
        if check(p, lo) {
            Ok(KernelInput::Period { kernel, period: p as i32 })
        } else {
            Err(KernelError::InvalidParameter)
        }
    } else {
        match kernel {
            Kernel::Macd => {
                let f = get_integer_param(params, "fast_period", 12);
                let s = get_integer_param(params, "slow_period", 26);
                let g = get_integer_param(params, "signal_period", 9);
                if check(f, 2) && check(s, 2) && check(g, 1) && f < s {
                    Ok(KernelInput::Macd { fast_period: f as i32, slow_period: s as i32, signal_period: g as i32 })
                } else {
                    Err(KernelError::InvalidParameter)
                }
            },
            Kernel::Bbands => {
                let p = get_integer_param(params, "period", 20);
                let m = get_integer_param(params, "ma_type", 0);
                if check(p, 2) && check_ma(m) {
                    Ok(KernelInput::Bbands { period: p as i32, ma_type: m as i32 })
                } else {
                    Err(KernelError::InvalidParameter)
                }
            },
            Kernel::Stoch => {
                let kp = get_integer_param(params, "k_period", 14);
                let sl = get_integer_param(params, "slowing", 3);
                let d = get_integer_param(params, "d_period", 3);
                let m = get_integer_param(params, "ma_type", 0);
                if check(kp, 1) && check(sl, 1) && check(d, 1) && check_ma(m) {
                    Ok(KernelInput::Stoch { k_period: kp as i32, slowing: sl as i32, d_period: d as i32, ma_type: m as i32 })
                } else {
                    Err(KernelError::InvalidParameter)
                }
            },
            Kernel::StochRsi => {
                let p = get_integer_param(params, "period", 14);
                let kp = get_integer_param(params, "k_period", 5);
                let d = get_integer_param(params, "d_period", 3);
                let m = get_integer_param(params, "ma_type", 0);
                if check(p, 2) && check(kp, 1) && check(d, 1) && check_ma(m) {
                    Ok(KernelInput::StochRsi { period: p as i32, k_period: kp as i32, d_period: d as i32, ma_type: m as i32 })
                } else {
                    Err(KernelError::InvalidParameter)
                }
            },
            Kernel::Ppo => {
                let f = get_integer_param(params, "fast_period", 12);
                let s = get_integer_param(params, "slow_period", 26);
                if check(f, 2) && check(s, 2) && f < s {
                    Ok(KernelInput::Ppo { fast_period: f as i32, slow_period: s as i32 })
                } else {
                    Err(KernelError::InvalidParameter)
                }
            },
            Kernel::Adosc => {
                let f = get_integer_param(params, "fast_period", 3);
                let s = get_integer_param(params, "slow_period", 10);
                if check(f, 2) && check(s, 2) {
                    Ok(KernelInput::Adosc { fast_period: f as i32, slow_period: s as i32 })
                } else {
                    Err(KernelError::InvalidParameter)
                }
            },
            _ => Ok(KernelInput::Plain { kernel }),
        }
    }
}

fn ma_lookback_exec(ma_type: i32, period: i32) -> (r: usize)
    requires
        1 <= period <= MAX_PERIOD,
    ensures
        r as int == ma_lookback(ma_type as int, period as int),
{
    let p = period as usize;
    if p <= 1 {
        0
    } else if ma_type == 3 {
        2 * (p - 1)
    } else if ma_type == 4 {
        3 * (p - 1)
    } else if ma_type == 6 {
        p
    } else if ma_type == 7 {
        32
    } else if ma_type == 8 {
        6 * (p - 1)
    } else {
        p - 1
    }
}

impl KernelInput {
    /// The kernel this input runs.
    pub fn kernel(&self) -> (r: Kernel)
        ensures
            r == input_kernel(*self),
    {
        match self {
            KernelInput::Period { kernel, .. } => *kernel,
            KernelInput::Macd { .. } => Kernel::Macd,
            KernelInput::Bbands { .. } => Kernel::Bbands,
            KernelInput::Stoch { .. } => Kernel::Stoch,
            KernelInput::StochRsi { .. } => Kernel::StochRsi,
            KernelInput::Ppo { .. } => Kernel::Ppo,
            KernelInput::Adosc { .. } => Kernel::Adosc,
            KernelInput::Plain { kernel } => *kernel,
        }
    }

    /// The number of leading candles the kernel leaves without output.
    pub fn warm_up(&self) -> (r: usize)
        requires
            input_valid(*self),
        ensures
            r as int == warm_up(*self),
    {
        match self {
            KernelInput::Period { kernel, period } => {
                let p = *period as usize;
                match kernel {
                    Kernel::Sma | Kernel::Ema | Kernel::Cci | Kernel::Wma | Kernel::Trima | Kernel::Willr | Kernel::Stddev => p - 1,
                    Kernel::Dema => 2 * (p - 1),
                    Kernel::Tema => 3 * (p - 1),
                    Kernel::Adx => 2 * p - 1,
                    _ => p,
                }
            },
            KernelInput::Ppo { slow_period, .. } => *slow_period as usize - 1,
            KernelInput::Adosc { fast_period, slow_period } => {
                if *fast_period > *slow_period { *fast_period as usize - 1 } else { *slow_period as usize - 1 }
            },
            KernelInput::Macd { slow_period, signal_period, .. } => {
                (*slow_period as usize - 1) + (*signal_period as usize - 1)
            },
            KernelInput::Bbands { period, ma_type } => ma_lookback_exec(*ma_type, *period),
            KernelInput::Stoch { k_period, slowing, d_period, ma_type } => {
                (*k_period as usize - 1) + ma_lookback_exec(*ma_type, *slowing) + ma_lookback_exec(*ma_type, *d_period)
            },
            KernelInput::StochRsi { period, k_period, d_period, ma_type } => {
                *period as usize + (*k_period as usize - 1) + ma_lookback_exec(*ma_type, *d_period)
            },
            KernelInput::Plain { kernel } => match kernel {
                Kernel::Pattern(p) => p.warm_up(),
                Kernel::Sar | Kernel::Trange | Kernel::Pvt => 1,
                _ => 0,
            },
        }
    }
}

/// The warm-up of a valid input is small and non-negative.
pub proof fn lemma_warm_up_bounded(i: KernelInput)
    requires
        input_valid(i),
    ensures
        0 <= warm_up(i) <= 2000000,
{
    if let KernelInput::Plain { kernel: Kernel::Pattern(p) } = i {
        lemma_pattern_warm_up_bounded(p);
    }
}

/// A `period` of zero or below is rejected by every kernel that reads one.
pub proof fn law_nonpositive_period_invalid(k: Kernel, ps: Seq<Param>)
    requires
        is_period_kernel(k) || k == Kernel::Bbands || k == Kernel::StochRsi,
        integer_param(ps, "period"@, if is_period_kernel(k) { default_period(k) } else if k == Kernel::Bbands { 20 } else { 14 }) <= 0,
    ensures
        resolve_input(k, ps) == Err::<KernelInput, KernelError>(KernelError::InvalidParameter),
{
}

/// MACD with a slow period not above the fast one is rejected.
pub proof fn law_macd_slow_not_above_fast_invalid(ps: Seq<Param>)
    requires
        integer_param(ps, "slow_period"@, 26) <= integer_param(ps, "fast_period"@, 12),
    ensures
        resolve_input(Kernel::Macd, ps) == Err::<KernelInput, KernelError>(KernelError::InvalidParameter),
{
}

} // verus!
