//! Timing of the claim cycle: when the next claim may be made and how long a
//! worker sleeps before it.
use vstd::prelude::*;

verus! {

/// Milliseconds in one minute of the server's countdown interval.
pub const MS_PER_MINUTE: i128 = 60000;

/// Pad added to the first wait for a claim, absorbing clock skew.
pub const CLAIM_PAD_MS: i128 = 1000;

/// Seconds added to the wait that follows a speed-up attempt.
pub const CYCLE_PAD_SECS: u128 = 10;

/// Default retry interval when the service offers no speed-up (eight hours).
pub const DEFAULT_SPEEDUP_FALLBACK_SECS: u64 = 28800;

/// Epoch millisecond at which the countdown started at `last_start` ends.
pub open spec fn can_claim_at(last_start: int, interval_minutes: int) -> int {
    last_start + interval_minutes * 60000
}

/// Milliseconds to sleep before the first claim of a worker.
pub open spec fn claim_delay(last_start: int, interval_minutes: int, now: int) -> int {
    let rest = can_claim_at(last_start, interval_minutes) - now;
    (if rest > 0 { rest } else { 0 }) + 1000
}

/// Integer division rounding toward zero, as machine division does.
pub open spec fn div_toward_zero(a: int, d: int) -> int {
    if a >= 0 { a / d } else { -((-a) / d) }
}

/// Seconds to sleep after a speed-up attempt: derived from the countdown
/// that a successful speed-up reports, else the fallback. Never negative.
pub open spec fn cycle_delay(remaining_ms: Option<int>, fallback_secs: int) -> int {
    match remaining_ms {
        Some(ms) => {
            let s = div_toward_zero(ms, 1000) + 10;
            if s > 0 { s } else { 0 }
        },
        None => fallback_secs + 10,
    }
}

/// The epoch millisecond at which the next claim becomes possible.
pub fn next_claim_at(last_start: i64, interval_minutes: i32) -> (r: i128)
    ensures
        r == can_claim_at(last_start as int, interval_minutes as int),
{
    last_start as i128 + interval_minutes as i128 * MS_PER_MINUTE
}

/// Milliseconds left on the countdown at `now` (negative once it has ended).
pub fn remaining_countdown_ms(last_start: i64, interval_minutes: i32, now: i64) -> (r: i128)
    ensures
        r == can_claim_at(last_start as int, interval_minutes as int) - now,
{
    next_claim_at(last_start, interval_minutes) - now as i128
}

/// Milliseconds a freshly started worker waits before its first claim: what is
/// left of the countdown, if anything, plus the skew pad.
pub fn claim_delay_ms(last_start: i64, interval_minutes: i32, now: i64) -> (r: u128)
    ensures
        r == claim_delay(last_start as int, interval_minutes as int, now as int),
        r >= 1000,
        r == 1000 <==> can_claim_at(last_start as int, interval_minutes as int) <= now,
{
    let rest = remaining_countdown_ms(last_start, interval_minutes, now);
    if rest > 0 {
        (rest + CLAIM_PAD_MS) as u128
    } else {
        CLAIM_PAD_MS as u128
    }
}

/// Seconds a worker sleeps after a speed-up attempt. `remaining_ms` is the
/// countdown reported by a successful speed-up, `None` when none was granted.
pub fn next_cycle_delay_secs(remaining_ms: Option<i128>, fallback_secs: u64) -> (r: u128)
    ensures
        r == cycle_delay(
            match remaining_ms {
                Some(ms) => Some(ms as int),
                None => None,
            },
            fallback_secs as int,
        ),
{
    match remaining_ms {
        Some(ms) => {
            if ms >= 0 {
                (ms / 1000) as u128 + CYCLE_PAD_SECS
            } else if ms > -10000 {
                let back: i128 = (-ms) / 1000;
                (10 - back) as u128
            } else {
                0
            }
        },
        None => fallback_secs as u128 + CYCLE_PAD_SECS,
    }
}

} // verus!
