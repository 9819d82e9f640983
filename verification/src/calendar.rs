//! Calendar arithmetic on bar timestamps (Unix epoch milliseconds).
//!
//! The day-of-week profile buckets each bar by its *local* weekday: the
//! wall-clock day of the timestamp shifted by a UTC offset in minutes, with
//! Monday as `0` through Sunday as `6`. 1970-01-01 was a Thursday (`3`).
use vstd::prelude::*;
use vstd::arithmetic::div_mod::lemma_hoist_over_denominator;
use vstd::arithmetic::div_mod::lemma_mod_multiples_vanish;

verus! {

/// Milliseconds in one day.
pub const MS_PER_DAY: i64 = 86_400_000i64;

/// Milliseconds in one minute.
pub const MS_PER_MINUTE: i64 = 60_000i64;

/// Number of whole local days since the epoch (floor division, so instants
/// before the epoch fall on negative days).
pub open spec fn local_day(timestamp_ms: int, utc_offset_minutes: int) -> int {
    (timestamp_ms + utc_offset_minutes * 60_000) / 86_400_000
}

/// Local weekday, Monday `0` through Sunday `6`.
pub open spec fn weekday_of(timestamp_ms: int, utc_offset_minutes: int) -> int {
    (local_day(timestamp_ms, utc_offset_minutes) + 3) % 7
}

/// Local weekday of a millisecond timestamp shifted by `utc_offset_minutes`,
/// Monday `0` through Sunday `6`.
pub fn weekday(timestamp_ms: i64, utc_offset_minutes: i32) -> (w: u8)
    ensures
        w == weekday_of(timestamp_ms as int, utc_offset_minutes as int),
        w == weekday_of(timestamp_ms as int + utc_offset_minutes as int * 60_000, 0),
        w < 7,
{
    let local: i128 = timestamp_ms as i128 + (utc_offset_minutes as i128) * 60_000i128;
    // Shift by a whole number of weeks so the value is non-negative; this moves
    // the day number by a multiple of seven and leaves the weekday unchanged.
    let weeks: i128 = 17_179_869_184i128;
    let shifted: i128 = local + weeks * 604_800_000i128;
    let su: u128 = shifted as u128;
    let day: u128 = su / 86_400_000u128;
    let w: u128 = (day + 3) % 7;
    proof {
        let d = local as int / 86_400_000;
        lemma_hoist_over_denominator(local as int, 7 * weeks as int, 86_400_000nat);
        assert(day as int == d + 7 * weeks as int);
        lemma_mod_multiples_vanish(weeks as int, d + 3, 7);
        assert(7 * (weeks as int) + (d + 3) == day as int + 3);
    }
    proof {
        lemma_offset_is_time_shift(timestamp_ms as int, utc_offset_minutes as int);
    }
    w as u8
}

/// A week later the local weekday is the same.
pub proof fn lemma_weekday_weekly(timestamp_ms: int, utc_offset_minutes: int)
    ensures
        weekday_of(timestamp_ms + 7 * 86_400_000, utc_offset_minutes)
            == weekday_of(timestamp_ms, utc_offset_minutes),
{
    let x = timestamp_ms + utc_offset_minutes * 60_000;
    let d = x / 86_400_000;
    lemma_hoist_over_denominator(x, 7, 86_400_000nat);
    assert(local_day(timestamp_ms + 7 * 86_400_000, utc_offset_minutes) == d + 7);
    lemma_mod_multiples_vanish(1, d + 3, 7);
}

/// A day later the local weekday advances by one, wrapping Sunday to Monday.
pub proof fn lemma_weekday_next_day(timestamp_ms: int, utc_offset_minutes: int)
    ensures
        weekday_of(timestamp_ms + 86_400_000, utc_offset_minutes)
            == (weekday_of(timestamp_ms, utc_offset_minutes) + 1) % 7,
{
    let x = timestamp_ms + utc_offset_minutes * 60_000;
    let d = x / 86_400_000;
    lemma_hoist_over_denominator(x, 1, 86_400_000nat);
    assert(local_day(timestamp_ms + 86_400_000, utc_offset_minutes) == d + 1);
    vstd::arithmetic::div_mod::lemma_add_mod_noop(d + 3, 1, 7);
    vstd::arithmetic::div_mod::lemma_mod_twice(1, 7);
}

/// Shifting the UTC offset by a whole day (1440 minutes) is the same as moving
/// the timestamp by a day.
pub proof fn lemma_offset_day_shift(timestamp_ms: int, utc_offset_minutes: int)
    ensures
        weekday_of(timestamp_ms, utc_offset_minutes + 1440)
            == weekday_of(timestamp_ms + 86_400_000, utc_offset_minutes),
{
    assert(timestamp_ms + (utc_offset_minutes + 1440) * 60_000
        == (timestamp_ms + 86_400_000) + utc_offset_minutes * 60_000);
}

/// The epoch, 1970-01-01 in UTC, was a Thursday.
pub proof fn lemma_epoch_is_thursday()
    ensures
        weekday_of(0, 0) == 3,
{
}

/// The UTC offset acts as a shift of the timestamp by exactly that many
/// minutes: the local weekday at offset `m` is the UTC weekday of the instant
/// `m * 60_000` milliseconds later. Every minute of the offset counts, not only
/// its whole hours.
pub proof fn lemma_offset_is_time_shift(timestamp_ms: int, utc_offset_minutes: int)
    ensures
        weekday_of(timestamp_ms, utc_offset_minutes)
            == weekday_of(timestamp_ms + utc_offset_minutes * 60_000, 0),
{
}

/// All instants of one UTC day share a weekday: from the midnight that starts
/// day `d` up to (not including) the next midnight.
pub proof fn lemma_weekday_constant_within_day(day: int, ms_into_day: int)
    requires
        0 <= ms_into_day < 86_400_000,
    ensures
        weekday_of(day * 86_400_000 + ms_into_day, 0) == weekday_of(day * 86_400_000, 0),
{
    vstd::arithmetic::div_mod::lemma_hoist_over_denominator(ms_into_day, day, 86_400_000nat);
    vstd::arithmetic::div_mod::lemma_hoist_over_denominator(0, day, 86_400_000nat);
    vstd::arithmetic::div_mod::lemma_basic_div(ms_into_day, 86_400_000);
    assert(ms_into_day + day * 86_400_000 == day * 86_400_000 + ms_into_day);
}

/// The UTC weekday of the midnight starting day `d` since the epoch is
/// `(d + 3) mod 7`: day 0 (1970-01-01) is Thursday and each day advances the
/// weekday by one, Monday `0` through Sunday `6`.
pub proof fn lemma_weekday_of_midnight(day: int)
    ensures
        weekday_of(day * 86_400_000, 0) == (day + 3) % 7,
        0 <= weekday_of(day * 86_400_000, 0) < 7,
{
    vstd::arithmetic::div_mod::lemma_hoist_over_denominator(0, day, 86_400_000nat);
}

/// The local weekday of a bar stamped at local wall-clock time `ms_into_day`
/// on local day `day` (days since 1970-01-01 in local time) is that day's
/// weekday, whatever the UTC offset: `timestamp + offset` is the local
/// wall-clock instant.
pub proof fn lemma_local_day_weekday(day: int, ms_into_day: int, utc_offset_minutes: int)
    requires
        0 <= ms_into_day < 86_400_000,
    ensures
        weekday_of(day * 86_400_000 + ms_into_day - utc_offset_minutes * 60_000, utc_offset_minutes)
            == (day + 3) % 7,
{
    lemma_offset_is_time_shift(day * 86_400_000 + ms_into_day - utc_offset_minutes * 60_000, utc_offset_minutes);
    lemma_weekday_constant_within_day(day, ms_into_day);
    lemma_weekday_of_midnight(day);
}

} // verus!
