use wickra_core::schedule::RECOMPUTE_EVERY;
use wickra_core::RecomputeSchedule;

#[test]
fn recompute_every_sixteen_windows() {
    let mut s = RecomputeSchedule::for_period(5);
    assert_eq!(s.interval(), RECOMPUTE_EVERY * 5);
    let due: Vec<usize> = (1..=240).filter(|_| s.tick()).collect();
    assert_eq!(due, vec![80, 160, 240]);
}

#[test]
fn reset_restarts_the_count() {
    let mut s = RecomputeSchedule::for_period(1);
    for _ in 0..10 {
        assert!(!s.tick());
    }
    s.reset();
    for _ in 0..15 {
        assert!(!s.tick());
    }
    assert!(s.tick());
}
