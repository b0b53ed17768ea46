//! Pure time predicates over Unix timestamps (seconds): whether the US
//! equity market is open, and whether a timestamp lies within a fixed
//! margin after the day's open or close boundary.
//!
//! Division and remainder on timestamps follow Rust's truncating
//! convention, so for negative (pre-epoch) timestamps the seconds-since-
//! midnight value is negative and the weekday number may be negative; the
//! spec functions below mirror that convention exactly. Holidays are not
//! modeled.

use vstd::prelude::*;

verus! {

pub const SECONDS_IN_AN_HOUR: i64 = 3600;
pub const SECONDS_IN_A_MINUTE: i64 = 60;
pub const SECONDS_IN_A_DAY: i64 = 86400;
/// 14:30 UTC (9:30 EST)
pub const MARKET_OPEN_TIME: i64 = 14 * SECONDS_IN_AN_HOUR + 30 * SECONDS_IN_A_MINUTE;
/// 21:00 UTC (16:00 EST)
pub const MARKET_CLOSE_TIME: i64 = 21 * SECONDS_IN_AN_HOUR;
/// 15 minutes in seconds
pub const MARKET_OPEN_CLOSE_MARGIN: i64 = 15 * SECONDS_IN_A_MINUTE;

/// Truncating (round-toward-zero) quotient, as Rust's `/` computes it on
/// signed integers; agrees with Euclidean division for `a >= 0`.
pub open spec fn trunc_quot(a: int, b: int) -> int {
    if a >= 0 {
        a / b
    } else {
        -((-a) / b)
    }
}

/// Truncating remainder, as Rust's `%` computes it on signed integers with
/// a positive divisor; agrees with the Euclidean remainder for `a >= 0`.
pub open spec fn trunc_rem(a: int, b: int) -> int {
    if a >= 0 {
        a % b
    } else {
        -((-a) % b)
    }
}

/// Seconds elapsed since the start of the timestamp's UTC day
/// (negative for pre-epoch timestamps, per the truncating convention).
pub open spec fn spec_seconds_since_midnight(t: int) -> int {
    trunc_rem(t, SECONDS_IN_A_DAY as int)
}

/// Day-of-week number: `(t / 86400 + 3) % 7` with truncating `/` and `%`.
/// The offset places the Unix epoch day (a Thursday) at `3`, so `0..=4`
/// denote Monday..Friday and `5`, `6` denote Saturday and Sunday — the
/// weekend, on which the market predicate is false.
pub open spec fn spec_weekday(t: int) -> int {
    trunc_rem(trunc_quot(t, SECONDS_IN_A_DAY as int) + 3, 7)
}

/// The market is open: not a weekend day, and the time of day lies in
/// `[MARKET_OPEN_TIME, MARKET_CLOSE_TIME)`.
pub open spec fn spec_is_market_open(t: int) -> bool {
    &&& spec_weekday(t) < 5
    &&& spec_seconds_since_midnight(t) >= MARKET_OPEN_TIME
    &&& spec_seconds_since_midnight(t) < MARKET_CLOSE_TIME
}

/// The time of day lies within the margin at or after market open, or
/// within the margin at or after market close.
pub open spec fn spec_is_near_open_or_close(t: int) -> bool {
    ||| (spec_seconds_since_midnight(t) >= MARKET_OPEN_TIME
        && spec_seconds_since_midnight(t) < MARKET_OPEN_TIME + MARKET_OPEN_CLOSE_MARGIN)
    ||| (spec_seconds_since_midnight(t) >= MARKET_CLOSE_TIME
        && spec_seconds_since_midnight(t) < MARKET_CLOSE_TIME + MARKET_OPEN_CLOSE_MARGIN)
}

/// Whether the US equity market is open at `unix_timestamp`.
pub fn is_us_market_open(unix_timestamp: i64) -> (r: bool)
    ensures
        r == spec_is_market_open(unix_timestamp as int),
{
    let seconds_since_midnight: i64 = unix_timestamp % SECONDS_IN_A_DAY;
    let weekday: i64 = (unix_timestamp / SECONDS_IN_A_DAY + 3) % 7;

    if weekday >= 5 {
        return false;
    }

    seconds_since_midnight >= MARKET_OPEN_TIME && seconds_since_midnight < MARKET_CLOSE_TIME
}

/// Whether `unix_timestamp` falls within 15 minutes at or after market
/// open, or within 15 minutes at or after market close.
pub fn is_within_15_minutes_of_market_open_or_close(unix_timestamp: i64) -> (r: bool)
    ensures
        r == spec_is_near_open_or_close(unix_timestamp as int),
{
    let seconds_since_midnight: i64 = unix_timestamp % SECONDS_IN_A_DAY;

    (seconds_since_midnight >= MARKET_OPEN_TIME
        && seconds_since_midnight < MARKET_OPEN_TIME + MARKET_OPEN_CLOSE_MARGIN)
        || (seconds_since_midnight >= MARKET_CLOSE_TIME
            && seconds_since_midnight < MARKET_CLOSE_TIME + MARKET_OPEN_CLOSE_MARGIN)
}

/// On a weekend day — a weekday number of `5` (Saturday) or `6` (Sunday)
/// — the market is never open, whatever the time of day.
pub proof fn lemma_weekend_closed(t: int)
    requires
        spec_weekday(t) == 5 || spec_weekday(t) == 6,
    ensures
        !spec_is_market_open(t),
{
}

/// On a week day — a weekday number in `0..=4`, Monday..Friday — the
/// market is open exactly when the time of day lies in
/// `[MARKET_OPEN_TIME, MARKET_CLOSE_TIME)`, and closed outside it.
pub proof fn lemma_weekday_market_window(t: int)
    requires
        0 <= spec_weekday(t) <= 4,
    ensures
        spec_is_market_open(t) <==> (MARKET_OPEN_TIME <= spec_seconds_since_midnight(t)
            < MARKET_CLOSE_TIME),
{
}

/// The near-boundary predicate holds exactly on two windows of the day,
/// each `MARKET_OPEN_CLOSE_MARGIN` (900) seconds long — `[52200, 53100)`
/// and `[75600, 76500)` in seconds since midnight — and the two windows
/// are disjoint.
pub proof fn lemma_near_boundary_windows(t: int)
    ensures
        spec_is_near_open_or_close(t) <==> ((52200 <= spec_seconds_since_midnight(t) < 53100) || (
        75600 <= spec_seconds_since_midnight(t) < 76500)),
        !((52200 <= spec_seconds_since_midnight(t) < 53100) && (75600 <= spec_seconds_since_midnight(
            t,
        ) < 76500)),
        MARKET_OPEN_TIME == 52200 && MARKET_OPEN_TIME + MARKET_OPEN_CLOSE_MARGIN == 53100,
        MARKET_CLOSE_TIME == 75600 && MARKET_CLOSE_TIME + MARKET_OPEN_CLOSE_MARGIN == 76500,
{
}

/// For non-negative timestamps the time of day — and with it the
/// near-boundary predicate — repeats with a period of one day.
pub proof fn lemma_near_boundary_daily_period(t: int)
    requires
        t >= 0,
    ensures
        spec_seconds_since_midnight(t + SECONDS_IN_A_DAY) == spec_seconds_since_midnight(t),
        spec_is_near_open_or_close(t + SECONDS_IN_A_DAY) == spec_is_near_open_or_close(t),
{
    vstd::arithmetic::div_mod::lemma_mod_add_multiples_vanish(t, SECONDS_IN_A_DAY as int);
}

} // verus!
