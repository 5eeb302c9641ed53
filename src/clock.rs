//! Instants as whole seconds since the Unix epoch (UTC), the span of them the
//! library works in, and the calls into chrono that read the clock or the
//! calendar.
use vstd::prelude::*;
use vstd::arithmetic::div_mod::lemma_mod_multiples_vanish;
use chrono::{Datelike, TimeZone};

verus! {

/// Seconds in one day.
pub const SECS_PER_DAY: i64 = 86400;

/// Instants handled by the library lie in `[-INSTANT_LIMIT, INSTANT_LIMIT]`.
/// The value is a whole number of days and lies inside chrono's own span.
pub const INSTANT_LIMIT: i64 = 7_999_999_948_800;

/// Clock readings for which a "now" date range is computed lie in
/// `[-CLOCK_LIMIT, CLOCK_LIMIT]`; the margin to `INSTANT_LIMIT` leaves room
/// for a year and for the longest fixed time frame.
pub const CLOCK_LIMIT: i64 = 7_999_000_000_000;

/// Smallest timestamp of a `chrono::DateTime<Utc>` (`DateTime::<Utc>::MIN_UTC`).
pub const CHRONO_MIN_TIMESTAMP: i64 = -8_334_601_315_200;

/// Largest timestamp of a `chrono::DateTime<Utc>` (`DateTime::<Utc>::MAX_UTC`).
pub const CHRONO_MAX_TIMESTAMP: i64 = 8_210_266_876_799;

pub open spec fn in_span(t: int) -> bool {
    -INSTANT_LIMIT <= t <= INSTANT_LIMIT
}

pub open spec fn valid_now(now: int) -> bool {
    -CLOCK_LIMIT <= now <= CLOCK_LIMIT
}

/// Midnight (UTC) that starts the day holding `t`.
pub open spec fn day_start(t: int) -> int {
    t - t % (SECS_PER_DAY as int)
}

/// Midnight that starts the day after the one holding `now`.
pub open spec fn start_of_tomorrow(now: int) -> int {
    day_start(now) + SECS_PER_DAY
}

/// The instant `t` moved to January 1st of its own year (UTC), keeping the
/// time of day, as chrono's calendar computes it.
pub uninterp spec fn jan_first_of(t: int) -> int;

/// Computes `day_start(t)`.
pub fn day_start_of(t: i64) -> (r: i64)
    requires
        in_span(t as int),
    ensures
        r == day_start(t as int),
        t - SECS_PER_DAY < r <= t,
{
    let shifted: u64 = (t + INSTANT_LIMIT) as u64;
    let floored: u64 = shifted - shifted % (SECS_PER_DAY as u64);
    proof {
        assert(INSTANT_LIMIT as int == 92_592_592 * (SECS_PER_DAY as int));
        assert((t as int + INSTANT_LIMIT as int) % (SECS_PER_DAY as int)
            == (t as int) % (SECS_PER_DAY as int)) by {
            lemma_mod_multiples_vanish(
                92_592_592,
                t as int,
                SECS_PER_DAY as int,
            );
        }
    }
    (floored as i64) - INSTANT_LIMIT
}

/// Computes `start_of_tomorrow(now)`.
pub fn start_of_tomorrow_of(now: i64) -> (r: i64)
    requires
        valid_now(now as int),
    ensures
        r == start_of_tomorrow(now as int),
        now < r <= now + SECS_PER_DAY,
{
    day_start_of(now) + SECS_PER_DAY
}

/// Relies on `chrono::Utc::now` and `DateTime::timestamp`: the current time in
/// whole seconds since the epoch. Any `DateTime<Utc>` lies between
/// `DateTime::<Utc>::MIN_UTC` and `DateTime::<Utc>::MAX_UTC`.
#[verifier::external_body]
pub(crate) fn clock_now_secs() -> (r: i64)
    ensures
        CHRONO_MIN_TIMESTAMP <= r <= CHRONO_MAX_TIMESTAMP,
{
    chrono::Utc::now().timestamp()
}

/// Relies on `chrono::Utc::now` and `DateTime::timestamp_millis`: the current
/// time in whole milliseconds since the epoch, within chrono's span.
#[verifier::external_body]
pub(crate) fn clock_now_millis() -> (r: i64)
    ensures
        CHRONO_MIN_TIMESTAMP * 1000 <= r <= CHRONO_MAX_TIMESTAMP * 1000 + 999,
{
    chrono::Utc::now().timestamp_millis()
}

/// Relies on chrono's `Datelike::with_ordinal(1)` on a `DateTime<Utc>`: the
/// same time of day on the first day of the same year, hence no later than
/// `t`, less than 366 days before it, and a whole number of days apart.
#[verifier::external_body]
pub(crate) fn year_start_secs(t: i64) -> (r: i64)
    requires
        in_span(t as int),
    ensures
        r == jan_first_of(t as int),
        t - 366 * SECS_PER_DAY < r <= t,
        (t - r) % (SECS_PER_DAY as int) == 0,
{
    chrono::Utc.timestamp_opt(t, 0).unwrap().with_ordinal(1).unwrap().timestamp()
}

} // verus!
