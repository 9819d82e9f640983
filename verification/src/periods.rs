//! Period (window length) rules that indicator constructors enforce before any
//! state is built.
//!
//! A zero period is rejected with [`Error::PeriodZero`]; indicators that need a
//! longer window, or an ordering between two windows, reject with
//! [`Error::InvalidPeriod`] carrying an indicator-specific message.
use vstd::prelude::*;

use crate::error::Error;

verus! {

/// Message for a detrended standard deviation shorter than two bars.
pub const DETRENDED_STD_DEV_MIN_MESSAGE: &'static str = "detrended stddev needs period >= 2";
/// Message for a linear regression shorter than two bars.
pub const LINEAR_REGRESSION_MIN_MESSAGE: &'static str = "linear regression needs period >= 2";
/// Message for a linear regression slope shorter than two bars.
pub const LINREG_SLOPE_MIN_MESSAGE: &'static str = "linear regression slope needs period >= 2";
/// Message for a standard error shorter than three bars.
pub const STANDARD_ERROR_MIN_MESSAGE: &'static str = "standard error needs period >= 3";
/// Message for an Ornstein-Uhlenbeck half-life shorter than three bars.
pub const OU_HALF_LIFE_MIN_MESSAGE: &'static str = "OU half-life needs period >= 3";
/// Message for an AR(1) spread coefficient shorter than three bars.
pub const SPREAD_AR1_MIN_MESSAGE: &'static str = "AR(1) spread coefficient needs period >= 3";
/// Message for a historical volatility shorter than two bars.
pub const HISTORICAL_VOLATILITY_MIN_MESSAGE: &'static str = "historical volatility period must be >= 2";
/// Message for a pair-spread z-score with a beta window shorter than two bars.
pub const PAIR_SPREAD_BETA_MIN_MESSAGE: &'static str = "pair spread z-score needs beta_period >= 2";
/// Message for a pair-spread z-score with a z window shorter than two bars.
pub const PAIR_SPREAD_Z_MIN_MESSAGE: &'static str = "pair spread z-score needs z_period >= 2";
/// Message for a Granger causality test with a lag below one.
pub const GRANGER_LAG_MESSAGE: &'static str = "granger causality needs lag >= 1";
/// Message for a Granger causality window too short for its lag.
pub const GRANGER_PERIOD_MESSAGE: &'static str = "granger causality needs period >= 3*lag + 2";
/// Message for a MACD whose fast period is not below its slow period.
pub const MACD_ORDER_MESSAGE: &'static str = "fast period must be strictly less than slow period";
/// Message for an Awesome Oscillator Histogram whose fast period is not below its slow period.
pub const AO_HISTOGRAM_ORDER_MESSAGE: &'static str =
    "AwesomeOscillatorHistogram fast must be strictly less than slow";

/// A period must be at least one.
pub fn require_nonzero(period: usize) -> (r: Result<(), Error>)
    ensures
        r is Ok <==> period != 0,
        r is Err ==> r == Err::<(), Error>(Error::PeriodZero),
{
    if period == 0 {
        Err(Error::PeriodZero)
    } else {
        Ok(())
    }
}

/// A period must be at least `min`; shorter periods are rejected with
/// `message`.
pub fn require_at_least(period: usize, min: usize, message: &'static str) -> (r: Result<(), Error>)
    ensures
        r is Ok <==> period >= min,
        r is Err ==> r == Err::<(), Error>(Error::InvalidPeriod { message }),
{
    if period < min {
        Err(Error::InvalidPeriod { message })
    } else {
        Ok(())
    }
}

/// Every period in the list must be at least one.
pub fn require_all_nonzero(periods: &[usize]) -> (r: Result<(), Error>)
    ensures
        r is Ok <==> (forall|i: int| 0 <= i < periods@.len() ==> periods@[i] != 0),
        r is Err ==> r == Err::<(), Error>(Error::PeriodZero),
{
    let mut i: usize = 0;
    while i < periods.len()
        invariant
            i <= periods@.len(),
            forall|j: int| 0 <= j < i ==> periods@[j] != 0,
        decreases periods@.len() - i,
    {
        if periods[i] == 0 {
            return Err(Error::PeriodZero);
        }
        i = i + 1;
    }
    Ok(())
}

/// Outcome of the fast/slow rule shared by two-speed oscillators.
pub open spec fn fast_slow_outcome(fast: int, slow: int, third: int, message: &'static str) -> Result<(), Error> {
    if fast == 0 || slow == 0 || third == 0 {
        Err(Error::PeriodZero)
    } else if fast >= slow {
        Err(Error::InvalidPeriod { message })
    } else {
        Ok(())
    }
}

/// Two-speed oscillators (MACD, Awesome Oscillator Histogram): all three
/// periods must be non-zero, then the fast period must be strictly below the
/// slow one.
pub fn require_fast_below_slow(fast: usize, slow: usize, third: usize, message: &'static str) -> (r:
    Result<(), Error>)
    ensures
        r == fast_slow_outcome(fast as int, slow as int, third as int, message),
{
    if fast == 0 || slow == 0 || third == 0 {
        return Err(Error::PeriodZero);
    }
    if fast >= slow {
        return Err(Error::InvalidPeriod { message });
    }
    Ok(())
}

/// The three periods of MACD: fast EMA, slow EMA and signal EMA.
#[derive(Debug, Clone, Copy)]
pub struct MacdPeriods {
    fast: usize,
    slow: usize,
    signal: usize,
}

impl MacdPeriods {
    /// Fast EMA period.
    pub closed spec fn spec_fast(self) -> int { self.fast as int }
    /// Slow EMA period.
    pub closed spec fn spec_slow(self) -> int { self.slow as int }
    /// Signal EMA period.
    pub closed spec fn spec_signal(self) -> int { self.signal as int }

    #[verifier::type_invariant]
    closed spec fn wf(self) -> bool {
        0 < self.fast < self.slow && self.signal > 0
    }

    /// Validate MACD periods: all non-zero, `fast < slow`.
    pub fn new(fast: usize, slow: usize, signal: usize) -> (r: Result<MacdPeriods, Error>)
        ensures
            r is Ok <==> fast_slow_outcome(fast as int, slow as int, signal as int, MACD_ORDER_MESSAGE) is Ok,
            r is Err ==> r->Err_0 == fast_slow_outcome(fast as int, slow as int, signal as int, MACD_ORDER_MESSAGE)->Err_0,
            r matches Ok(p) ==> p.spec_fast() == fast && p.spec_slow() == slow && p.spec_signal() == signal,
    {
        match require_fast_below_slow(fast, slow, signal, MACD_ORDER_MESSAGE) {
            Err(e) => Err(e),
            Ok(()) => Ok(MacdPeriods { fast, slow, signal }),
        }
    }

    /// The classic 12 / 26 / 9 configuration.
    pub fn classic() -> (r: MacdPeriods)
        ensures
            r.spec_fast() == 12 && r.spec_slow() == 26 && r.spec_signal() == 9,
    {
        MacdPeriods { fast: 12, slow: 26, signal: 9 }
    }

    /// Fast EMA period.
    pub fn fast_period(&self) -> (r: usize)
        ensures r == self.spec_fast(), 0 < r < self.spec_slow(),
    {
        proof { use_type_invariant(self); }
        self.fast
    }

    /// Slow EMA period.
    pub fn slow_period(&self) -> (r: usize)
        ensures r == self.spec_slow(),
    {
        self.slow
    }

    /// Signal EMA period.
    pub fn signal_period(&self) -> (r: usize)
        ensures r == self.spec_signal(), r > 0,
    {
        proof { use_type_invariant(self); }
        self.signal
    }

    /// The slow EMA needs `slow` inputs to seed; the signal EMA needs another
    /// `signal - 1`.
    pub fn warmup_period(&self) -> (r: usize)
        requires
            self.spec_slow() + self.spec_signal() - 1 <= usize::MAX,
        ensures
            r == self.spec_slow() + self.spec_signal() - 1,
    {
        proof { use_type_invariant(self); }
        self.slow + (self.signal - 1)
    }
}

/// The three periods of the Awesome Oscillator Histogram: the fast and slow
/// Awesome Oscillator averages and the SMA of the oscillator.
#[derive(Debug, Clone, Copy)]
pub struct AoHistogramPeriods {
    fast: usize,
    slow: usize,
    sma: usize,
}

impl AoHistogramPeriods {
    /// Fast average period.
    pub closed spec fn spec_fast(self) -> int { self.fast as int }
    /// Slow average period.
    pub closed spec fn spec_slow(self) -> int { self.slow as int }
    /// Period of the SMA of the oscillator.
    pub closed spec fn spec_sma(self) -> int { self.sma as int }

    #[verifier::type_invariant]
    closed spec fn wf(self) -> bool {
        0 < self.fast < self.slow && self.sma > 0
    }

    /// Validate the periods: all non-zero, `fast < slow`.
    pub fn new(fast: usize, slow: usize, sma_period: usize) -> (r: Result<AoHistogramPeriods, Error>)
        ensures
            r is Ok <==> fast_slow_outcome(fast as int, slow as int, sma_period as int, AO_HISTOGRAM_ORDER_MESSAGE) is Ok,
            r is Err ==> r->Err_0 == fast_slow_outcome(fast as int, slow as int, sma_period as int, AO_HISTOGRAM_ORDER_MESSAGE)->Err_0,
            r matches Ok(p) ==> p.spec_fast() == fast && p.spec_slow() == slow && p.spec_sma() == sma_period,
    {
        match require_fast_below_slow(fast, slow, sma_period, AO_HISTOGRAM_ORDER_MESSAGE) {
            Err(e) => Err(e),
            Ok(()) => Ok(AoHistogramPeriods { fast, slow, sma: sma_period }),
        }
    }

    /// The classic 5 / 34 / 5 configuration.
    pub fn classic() -> (r: AoHistogramPeriods)
        ensures
            r.spec_fast() == 5 && r.spec_slow() == 34 && r.spec_sma() == 5,
    {
        AoHistogramPeriods { fast: 5, slow: 34, sma: 5 }
    }

    /// Fast average period.
    pub fn fast_period(&self) -> (r: usize)
        ensures r == self.spec_fast(), 0 < r < self.spec_slow(),
    {
        proof { use_type_invariant(self); }
        self.fast
    }

    /// Slow average period.
    pub fn slow_period(&self) -> (r: usize)
        ensures r == self.spec_slow(),
    {
        self.slow
    }

    /// Period of the SMA of the oscillator.
    pub fn sma_period(&self) -> (r: usize)
        ensures r == self.spec_sma(), r > 0,
    {
        proof { use_type_invariant(self); }
        self.sma
    }

    /// The oscillator first emits at `slow` bars; its SMA then needs
    /// `sma - 1` more oscillator values.
    pub fn warmup_period(&self) -> (r: usize)
        requires
            self.spec_slow() + self.spec_sma() - 1 <= usize::MAX,
        ensures
            r == self.spec_slow() + self.spec_sma() - 1,
    {
        proof { use_type_invariant(self); }
        self.slow + (self.sma - 1)
    }
}

/// Larger of two integers.
pub open spec fn max2(a: int, b: int) -> int {
    if a >= b { a } else { b }
}

/// First KST output: the slowest branch (`roc_i + sma_i`) plus the signal SMA's
/// `signal - 1` extra values.
pub open spec fn kst_warmup(roc: Seq<usize>, sma: Seq<usize>, signal: int) -> int {
    max2(
        max2(roc[0] + sma[0], roc[1] + sma[1]),
        max2(roc[2] + sma[2], roc[3] + sma[3]),
    ) + signal - 1
}

/// The KST warmup is governed by its slowest branch: it is at least
/// `roc_i + sma_i + signal - 1` for every branch `i`, and equal to it for one
/// of them (ROC and SMA lengths of different branches are never combined).
pub proof fn lemma_kst_warmup_is_slowest_branch(roc: Seq<usize>, sma: Seq<usize>, signal: int)
    requires
        roc.len() == 4,
        sma.len() == 4,
    ensures
        forall|i: int| 0 <= i < 4 ==> kst_warmup(roc, sma, signal) >= roc[i] + sma[i] + signal - 1,
        exists|i: int| 0 <= i < 4 && kst_warmup(roc, sma, signal) == roc[i] + sma[i] + signal - 1,
{
    let w = kst_warmup(roc, sma, signal);
    if w == roc[0] + sma[0] + signal - 1 {
        assert(0 <= 0int < 4 && w == roc[0] + sma[0] + signal - 1);
    } else if w == roc[1] + sma[1] + signal - 1 {
        assert(0 <= 1int < 4 && w == roc[1] + sma[1] + signal - 1);
    } else if w == roc[2] + sma[2] + signal - 1 {
        assert(0 <= 2int < 4 && w == roc[2] + sma[2] + signal - 1);
    } else {
        assert(0 <= 3int < 4 && w == roc[3] + sma[3] + signal - 1);
    }
}

/// The nine periods of the Know Sure Thing oscillator: four rate-of-change
/// lookbacks, the four SMAs smoothing them, and the signal SMA.
#[derive(Debug, Clone, Copy)]
pub struct KstPeriods {
    roc: [usize; 4],
    sma: [usize; 4],
    signal: usize,
}

impl KstPeriods {
    /// Rate-of-change lookbacks.
    pub closed spec fn spec_roc(self) -> Seq<usize> { self.roc@ }
    /// SMA periods of the four branches.
    pub closed spec fn spec_sma(self) -> Seq<usize> { self.sma@ }
    /// Signal SMA period.
    pub closed spec fn spec_signal(self) -> int { self.signal as int }

    #[verifier::type_invariant]
    closed spec fn wf(self) -> bool {
        &&& forall|i: int| 0 <= i < 4 ==> self.roc@[i] > 0 && self.sma@[i] > 0
        &&& self.signal > 0
    }

    /// Validate the nine periods: every one must be non-zero.
    pub fn new(
        roc1: usize,
        roc2: usize,
        roc3: usize,
        roc4: usize,
        sma1: usize,
        sma2: usize,
        sma3: usize,
        sma4: usize,
        signal_period: usize,
    ) -> (r: Result<KstPeriods, Error>)
        ensures
            r is Ok <==> (roc1 != 0 && roc2 != 0 && roc3 != 0 && roc4 != 0 && sma1 != 0 && sma2 != 0
                && sma3 != 0 && sma4 != 0 && signal_period != 0),
            r is Err ==> r == Err::<KstPeriods, Error>(Error::PeriodZero),
            r matches Ok(p) ==> {
                &&& p.spec_roc() == seq![roc1, roc2, roc3, roc4]
                &&& p.spec_sma() == seq![sma1, sma2, sma3, sma4]
                &&& p.spec_signal() == signal_period
            },
    {
        let all = [roc1, roc2, roc3, roc4, sma1, sma2, sma3, sma4, signal_period];
        match require_all_nonzero(&all) {
            Err(e) => Err(e),
            Ok(()) => {
                assert(all@[0] == roc1 && all@[1] == roc2 && all@[2] == roc3 && all@[3] == roc4);
                assert(all@[4] == sma1 && all@[5] == sma2 && all@[6] == sma3 && all@[7] == sma4);
                assert(all@[8] == signal_period);
                let p = KstPeriods {
                    roc: [roc1, roc2, roc3, roc4],
                    sma: [sma1, sma2, sma3, sma4],
                    signal: signal_period,
                };
                assert(p.roc@ =~= seq![roc1, roc2, roc3, roc4]);
                assert(p.sma@ =~= seq![sma1, sma2, sma3, sma4]);
                Ok(p)
            },
        }
    }

    /// Pring's classic daily configuration: ROC 10 / 15 / 20 / 30, SMA
    /// 10 / 10 / 10 / 15, signal 9.
    pub fn classic() -> (r: KstPeriods)
        ensures
            r.spec_roc() == seq![10usize, 15, 20, 30],
            r.spec_sma() == seq![10usize, 10, 10, 15],
            r.spec_signal() == 9,
    {
        let p = KstPeriods { roc: [10, 15, 20, 30], sma: [10, 10, 10, 15], signal: 9 };
        assert(p.roc@ =~= seq![10usize, 15, 20, 30]);
        assert(p.sma@ =~= seq![10usize, 10, 10, 15]);
        p
    }

    /// Rate-of-change lookback of branch `i`.
    pub fn roc_period(&self, i: usize) -> (r: usize)
        requires i < 4,
        ensures r == self.spec_roc()[i as int], r > 0,
    {
        proof { use_type_invariant(self); }
        self.roc[i]
    }

    /// SMA period of branch `i`.
    pub fn sma_period(&self, i: usize) -> (r: usize)
        requires i < 4,
        ensures r == self.spec_sma()[i as int], r > 0,
    {
        proof { use_type_invariant(self); }
        self.sma[i]
    }

    /// Signal SMA period.
    pub fn signal_period(&self) -> (r: usize)
        ensures r == self.spec_signal(), r > 0,
    {
        proof { use_type_invariant(self); }
        self.signal
    }

    /// Branch `i` first emits at input `roc_i + sma_i`; the signal SMA then
    /// needs `signal - 1` more KST values after the slowest branch.
    pub fn warmup_period(&self) -> (r: usize)
        requires
            kst_warmup(self.spec_roc(), self.spec_sma(), self.spec_signal()) <= usize::MAX,
        ensures
            r == kst_warmup(self.spec_roc(), self.spec_sma(), self.spec_signal()),
            forall|i: int| 0 <= i < 4 ==> r >= self.spec_roc()[i] + self.spec_sma()[i] + self.spec_signal() - 1,
            exists|i: int| 0 <= i < 4 && r == self.spec_roc()[i] + self.spec_sma()[i] + self.spec_signal() - 1,
    {
        proof { use_type_invariant(self); }
        let mut max_branch: usize = self.roc[0] + self.sma[0];
        let mut i: usize = 1;
        while i < 4
            invariant
                1 <= i <= 4,
                self.signal > 0,
                forall|j: int| 0 <= j < 4 ==> self.roc@[j] > 0 && self.sma@[j] > 0,
                kst_warmup(self.roc@, self.sma@, self.signal as int) <= usize::MAX,
                i == 1 ==> max_branch == self.roc@[0] + self.sma@[0],
                i == 2 ==> max_branch == max2(self.roc@[0] + self.sma@[0], self.roc@[1] + self.sma@[1]),
                i == 3 ==> max_branch == max2(
                    max2(self.roc@[0] + self.sma@[0], self.roc@[1] + self.sma@[1]),
                    self.roc@[2] + self.sma@[2],
                ),
                i == 4 ==> max_branch + self.signal - 1 == kst_warmup(self.roc@, self.sma@, self.signal as int),
            decreases 4 - i,
        {
            let branch = self.roc[i] + self.sma[i];
            if branch > max_branch {
                max_branch = branch;
            }
            i = i + 1;
        }
        proof {
            lemma_kst_warmup_is_slowest_branch(self.roc@, self.sma@, self.signal as int);
        }
        max_branch + (self.signal - 1)
    }
}

/// The two periods of Keltner Channels: the EMA middle line and the ATR width.
#[derive(Debug, Clone, Copy)]
pub struct KeltnerPeriods {
    ema: usize,
    atr: usize,
}

impl KeltnerPeriods {
    /// EMA period.
    pub closed spec fn spec_ema(self) -> int { self.ema as int }
    /// ATR period.
    pub closed spec fn spec_atr(self) -> int { self.atr as int }

    #[verifier::type_invariant]
    closed spec fn wf(self) -> bool {
        self.ema > 0 && self.atr > 0
    }

    /// Validate the periods: both non-zero (the EMA is built first, so a zero
    /// EMA period is the one reported).
    pub fn new(ema_period: usize, atr_period: usize) -> (r: Result<KeltnerPeriods, Error>)
        ensures
            r is Ok <==> ema_period != 0 && atr_period != 0,
            r is Err ==> r == Err::<KeltnerPeriods, Error>(Error::PeriodZero),
            r matches Ok(p) ==> p.spec_ema() == ema_period && p.spec_atr() == atr_period,
    {
        if ema_period == 0 || atr_period == 0 {
            return Err(Error::PeriodZero);
        }
        Ok(KeltnerPeriods { ema: ema_period, atr: atr_period })
    }

    /// The classic 20 / 10 configuration.
    pub fn classic() -> (r: KeltnerPeriods)
        ensures
            r.spec_ema() == 20 && r.spec_atr() == 10,
    {
        KeltnerPeriods { ema: 20, atr: 10 }
    }

    /// EMA period.
    pub fn ema_period(&self) -> (r: usize)
        ensures r == self.spec_ema(), r > 0,
    {
        proof { use_type_invariant(self); }
        self.ema
    }

    /// ATR period.
    pub fn atr_period(&self) -> (r: usize)
        ensures r == self.spec_atr(), r > 0,
    {
        proof { use_type_invariant(self); }
        self.atr
    }

    /// The channel is ready once both the EMA and the ATR are.
    pub fn warmup_period(&self) -> (r: usize)
        ensures
            r == max2(self.spec_ema(), self.spec_atr()),
    {
        if self.ema >= self.atr { self.ema } else { self.atr }
    }
}

/// Outcome of the Granger causality rule.
pub open spec fn granger_outcome(period: int, lag: int) -> Result<(), Error> {
    if lag < 1 {
        Err(Error::InvalidPeriod { message: GRANGER_LAG_MESSAGE })
    } else if period < 3 * lag + 2 {
        Err(Error::InvalidPeriod { message: GRANGER_PERIOD_MESSAGE })
    } else {
        Ok(())
    }
}

/// Granger causality: the lag must be at least one and the window must hold
/// `3 * lag + 2` observations.
pub fn granger_causality_periods(period: usize, lag: usize) -> (r: Result<(), Error>)
    requires
        3 * lag + 2 <= usize::MAX,
    ensures
        r == granger_outcome(period as int, lag as int),
{
    if lag < 1 {
        return Err(Error::InvalidPeriod { message: GRANGER_LAG_MESSAGE });
    }
    if period < 3 * lag + 2 {
        return Err(Error::InvalidPeriod { message: GRANGER_PERIOD_MESSAGE });
    }
    Ok(())
}

/// Outcome of the historical volatility rule.
pub open spec fn historical_volatility_outcome(period: int, trading_periods: int) -> Result<(), Error> {
    if period == 0 || trading_periods == 0 {
        Err(Error::PeriodZero)
    } else if period < 2 {
        Err(Error::InvalidPeriod { message: HISTORICAL_VOLATILITY_MIN_MESSAGE })
    } else {
        Ok(())
    }
}

/// Historical volatility: both periods non-zero, and at least two returns in
/// the window.
pub fn historical_volatility_periods(period: usize, trading_periods: usize) -> (r: Result<(), Error>)
    ensures
        r == historical_volatility_outcome(period as int, trading_periods as int),
{
    if period == 0 || trading_periods == 0 {
        return Err(Error::PeriodZero);
    }
    if period < 2 {
        return Err(Error::InvalidPeriod { message: HISTORICAL_VOLATILITY_MIN_MESSAGE });
    }
    Ok(())
}

/// Outcome of the pair-spread z-score rule.
pub open spec fn pair_spread_outcome(beta_period: int, z_period: int) -> Result<(), Error> {
    if beta_period < 2 {
        Err(Error::InvalidPeriod { message: PAIR_SPREAD_BETA_MIN_MESSAGE })
    } else if z_period < 2 {
        Err(Error::InvalidPeriod { message: PAIR_SPREAD_Z_MIN_MESSAGE })
    } else {
        Ok(())
    }
}

/// Pair-spread z-score: both the regression window and the z-score window need
/// at least two observations (the beta window is checked first).
pub fn pair_spread_periods(beta_period: usize, z_period: usize) -> (r: Result<(), Error>)
    ensures
        r == pair_spread_outcome(beta_period as int, z_period as int),
{
    if beta_period < 2 {
        return Err(Error::InvalidPeriod { message: PAIR_SPREAD_BETA_MIN_MESSAGE });
    }
    if z_period < 2 {
        return Err(Error::InvalidPeriod { message: PAIR_SPREAD_Z_MIN_MESSAGE });
    }
    Ok(())
}

/// First pair-spread z-score: `beta_period` samples for the first hedge ratio,
/// then `z_period - 1` more to fill the spread window.
pub fn pair_spread_warmup(beta_period: usize, z_period: usize) -> (r: usize)
    requires
        z_period >= 1,
        beta_period + z_period - 1 <= usize::MAX,
    ensures
        r == beta_period + z_period - 1,
{
    beta_period + (z_period - 1)
}

} // verus!
