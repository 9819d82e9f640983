use wickra_core::error::Error;
use wickra_core::periods::{
    granger_causality_periods, historical_volatility_periods, pair_spread_periods, require_all_nonzero,
    require_at_least, require_fast_below_slow, require_nonzero, GRANGER_LAG_MESSAGE,
    GRANGER_PERIOD_MESSAGE, HISTORICAL_VOLATILITY_MIN_MESSAGE, LINEAR_REGRESSION_MIN_MESSAGE,
    MACD_ORDER_MESSAGE, PAIR_SPREAD_BETA_MIN_MESSAGE, PAIR_SPREAD_Z_MIN_MESSAGE,
};

#[test]
fn zero_period_is_rejected() {
    assert_eq!(require_nonzero(0), Err(Error::PeriodZero));
    assert_eq!(require_nonzero(1), Ok(()));
}

#[test]
fn minimum_period_carries_message() {
    assert_eq!(
        require_at_least(1, 2, LINEAR_REGRESSION_MIN_MESSAGE),
        Err(Error::InvalidPeriod { message: "linear regression needs period >= 2" })
    );
    assert_eq!(require_at_least(2, 2, LINEAR_REGRESSION_MIN_MESSAGE), Ok(()));
}

#[test]
fn kst_style_all_nonzero() {
    assert_eq!(require_all_nonzero(&[10, 15, 20, 30, 10, 10, 10, 15, 9]), Ok(()));
    assert_eq!(require_all_nonzero(&[10, 15, 0, 30]), Err(Error::PeriodZero));
    assert_eq!(require_all_nonzero(&[]), Ok(()));
}

#[test]
fn macd_rules() {
    assert_eq!(require_fast_below_slow(12, 26, 9, MACD_ORDER_MESSAGE), Ok(()));
    assert_eq!(require_fast_below_slow(0, 26, 9, MACD_ORDER_MESSAGE), Err(Error::PeriodZero));
    assert_eq!(require_fast_below_slow(12, 26, 0, MACD_ORDER_MESSAGE), Err(Error::PeriodZero));
    assert_eq!(
        require_fast_below_slow(26, 26, 9, MACD_ORDER_MESSAGE),
        Err(Error::InvalidPeriod { message: "fast period must be strictly less than slow period" })
    );
}

#[test]
fn granger_rules() {
    assert_eq!(
        granger_causality_periods(100, 0),
        Err(Error::InvalidPeriod { message: GRANGER_LAG_MESSAGE })
    );
    assert_eq!(
        granger_causality_periods(7, 2),
        Err(Error::InvalidPeriod { message: GRANGER_PERIOD_MESSAGE })
    );
    assert_eq!(granger_causality_periods(8, 2), Ok(()));
}

#[test]
fn historical_volatility_rules() {
    assert_eq!(historical_volatility_periods(0, 252), Err(Error::PeriodZero));
    assert_eq!(historical_volatility_periods(20, 0), Err(Error::PeriodZero));
    assert_eq!(
        historical_volatility_periods(1, 252),
        Err(Error::InvalidPeriod { message: HISTORICAL_VOLATILITY_MIN_MESSAGE })
    );
    assert_eq!(historical_volatility_periods(2, 252), Ok(()));
}

#[test]
fn pair_spread_rules() {
    assert_eq!(
        pair_spread_periods(1, 1),
        Err(Error::InvalidPeriod { message: PAIR_SPREAD_BETA_MIN_MESSAGE })
    );
    assert_eq!(
        pair_spread_periods(2, 1),
        Err(Error::InvalidPeriod { message: PAIR_SPREAD_Z_MIN_MESSAGE })
    );
    assert_eq!(pair_spread_periods(2, 2), Ok(()));
}

use wickra_core::periods::{pair_spread_warmup, AO_HISTOGRAM_ORDER_MESSAGE};
use wickra_core::{AoHistogramPeriods, KeltnerPeriods, KstPeriods, MacdPeriods};

#[test]
fn macd_periods_validate_and_warm_up() {
    let p = MacdPeriods::new(12, 26, 9).unwrap();
    assert_eq!((p.fast_period(), p.slow_period(), p.signal_period()), (12, 26, 9));
    assert_eq!(p.warmup_period(), 34);
    assert_eq!(MacdPeriods::classic().warmup_period(), 34);
    assert!(matches!(MacdPeriods::new(0, 26, 9), Err(Error::PeriodZero)));
    assert!(matches!(MacdPeriods::new(12, 26, 0), Err(Error::PeriodZero)));
    assert!(matches!(
        MacdPeriods::new(26, 12, 9),
        Err(Error::InvalidPeriod { message: "fast period must be strictly less than slow period" })
    ));
}

#[test]
fn ao_histogram_periods_validate_and_warm_up() {
    let p = AoHistogramPeriods::classic();
    assert_eq!((p.fast_period(), p.slow_period(), p.sma_period()), (5, 34, 5));
    assert_eq!(p.warmup_period(), 38);
    assert!(matches!(AoHistogramPeriods::new(5, 34, 0), Err(Error::PeriodZero)));
    assert!(matches!(
        AoHistogramPeriods::new(34, 5, 5),
        Err(Error::InvalidPeriod { message }) if message == AO_HISTOGRAM_ORDER_MESSAGE
    ));
}

#[test]
fn kst_periods_validate_and_warm_up() {
    let p = KstPeriods::classic();
    // Slowest branch: ROC 30 + SMA 15 = 45; then 9 - 1 more for the signal.
    assert_eq!(p.warmup_period(), 53);
    assert_eq!(p.roc_period(3), 30);
    assert_eq!(p.sma_period(3), 15);
    assert_eq!(p.signal_period(), 9);
    let q = KstPeriods::new(10, 15, 20, 30, 10, 10, 10, 15, 9).unwrap();
    assert_eq!(q.warmup_period(), 53);
    assert!(matches!(KstPeriods::new(10, 15, 20, 30, 10, 0, 10, 15, 9), Err(Error::PeriodZero)));
    assert!(matches!(KstPeriods::new(10, 15, 20, 30, 10, 10, 10, 15, 0), Err(Error::PeriodZero)));
    // The slowest branch need not be the last one.
    assert_eq!(KstPeriods::new(50, 1, 1, 1, 5, 1, 1, 1, 1).unwrap().warmup_period(), 55);
}

#[test]
fn keltner_periods_validate_and_warm_up() {
    let p = KeltnerPeriods::classic();
    assert_eq!((p.ema_period(), p.atr_period()), (20, 10));
    assert_eq!(p.warmup_period(), 20);
    assert_eq!(KeltnerPeriods::new(5, 14).unwrap().warmup_period(), 14);
    assert!(matches!(KeltnerPeriods::new(0, 10), Err(Error::PeriodZero)));
    assert!(matches!(KeltnerPeriods::new(20, 0), Err(Error::PeriodZero)));
}

#[test]
fn pair_spread_warmup_counts_both_windows() {
    assert_eq!(pair_spread_warmup(20, 10), 29);
    assert_eq!(pair_spread_warmup(2, 2), 3);
}
