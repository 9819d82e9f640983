use wickra_core::calendar::{weekday, MS_PER_DAY};

const DAY: i64 = 24 * 3_600_000;

#[test]
fn epoch_is_thursday() {
    assert_eq!(MS_PER_DAY, DAY);
    assert_eq!(weekday(0, 0), 3);
    assert_eq!(weekday(DAY, 0), 4);
    assert_eq!(weekday(7 * DAY, 0), 3);
    assert_eq!(weekday(8 * DAY, 0), 4);
}

#[test]
fn before_epoch_rounds_down_to_the_previous_day() {
    // One millisecond before the epoch is still Wednesday 1969-12-31.
    assert_eq!(weekday(-1, 0), 2);
    assert_eq!(weekday(-DAY, 0), 2);
    assert_eq!(weekday(-DAY - 1, 0), 1);
}

#[test]
fn utc_offset_shifts_the_local_day() {
    // 23:30 UTC on Thursday is already Friday at UTC+01:00 ...
    let late = DAY - 30 * 60_000;
    assert_eq!(weekday(late, 0), 3);
    assert_eq!(weekday(late, 60), 4);
    // ... and 00:30 UTC on Thursday is still Wednesday at UTC-01:00.
    assert_eq!(weekday(30 * 60_000, -60), 2);
}

#[test]
fn extreme_timestamps_do_not_overflow() {
    let w = weekday(i64::MAX, i32::MAX);
    assert!(w < 7);
    let w = weekday(i64::MIN, i32::MIN);
    assert!(w < 7);
    // 2024-01-01 00:00 UTC was a Monday.
    assert_eq!(weekday(1_704_067_200_000, 0), 0);
}
