use wickra_core::error::Error;
use wickra_core::hma::{nearest_sqrt, Hma};

#[test]
fn hma_rejects_zero_period() {
    assert!(Hma::new(0).is_err());
    assert!(matches!(Hma::new(0), Err(Error::PeriodZero)));
}

#[test]
fn hma_stage_lengths_for_nine() {
    let h = Hma::new(9).unwrap();
    assert_eq!(h.period(), 9);
    assert_eq!(h.half_period(), 4);
    assert_eq!(h.full_period(), 9);
    assert_eq!(h.smooth_period(), 3);
    assert_eq!(h.warmup_period(), 11);
    assert_eq!(h.name(), "HMA");
}

#[test]
fn hma_period_one_uses_unit_stages() {
    let h = Hma::new(1).unwrap();
    assert_eq!(h.half_period(), 1);
    assert_eq!(h.smooth_period(), 1);
    assert_eq!(h.warmup_period(), 1);
}

#[test]
fn hma_smooth_rounds_to_nearest() {
    // sqrt(2) = 1.41 -> 1, sqrt(3) = 1.73 -> 2, sqrt(6) = 2.45 -> 2, sqrt(7) = 2.65 -> 3.
    assert_eq!(Hma::new(2).unwrap().smooth_period(), 1);
    assert_eq!(Hma::new(3).unwrap().smooth_period(), 2);
    assert_eq!(Hma::new(6).unwrap().smooth_period(), 2);
    assert_eq!(Hma::new(7).unwrap().smooth_period(), 3);
    assert_eq!(Hma::new(20).unwrap().smooth_period(), 4);
    assert_eq!(Hma::new(21).unwrap().smooth_period(), 5);
    assert_eq!(Hma::new(21).unwrap().half_period(), 10);
}

#[test]
fn nearest_sqrt_matches_float_rounding() {
    for n in 0usize..20_000 {
        let expected = (n as f64).sqrt().round() as usize;
        assert_eq!(nearest_sqrt(n), expected, "n = {}", n);
    }
    assert_eq!(nearest_sqrt(usize::MAX), 1usize << 32);
    assert_eq!(nearest_sqrt(1usize << 62), 1usize << 31);
}

#[test]
fn hma_starts_not_ready_and_fills_its_cascade() {
    let mut h = Hma::new(9).unwrap();
    assert!(!h.is_ready());
    // half = 4, full = 9, smooth = 3: the first value comes with input 4 + 9 + 3 - 2 = 14.
    for _ in 0..13 {
        assert!(!h.advance());
    }
    assert!(!h.is_ready());
    assert!(h.advance());
    assert!(h.is_ready());
    assert!(h.advance());
    h.reset();
    assert!(!h.is_ready());
    assert_eq!(h.period(), 9);
}

#[test]
fn hma_period_one_is_ready_after_one_input() {
    let mut h = Hma::new(1).unwrap();
    assert!(!h.is_ready());
    assert!(h.advance());
    assert!(h.is_ready());
    let mut h4 = Hma::new(4).unwrap();
    assert_eq!(h4.warmup_period(), 5);
    let first = (1..=10).find(|_| h4.advance()).unwrap();
    assert_eq!(first, 6);
}
