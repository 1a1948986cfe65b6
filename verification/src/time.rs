//! Instants as microseconds since the Unix epoch, and the clock.

use vstd::prelude::*;

verus! {

/// Earliest instant a UTC date-time can hold (January 1st of year -262143), in microseconds.
pub const MIN_TIMESTAMP_MICROS: i64 = -8_334_601_315_200_000_000;

/// Latest instant a UTC date-time can hold (the last microsecond of year 262142).
pub const MAX_TIMESTAMP_MICROS: i64 = 8_210_266_876_799_999_999;

pub const MICROS_PER_SECOND: i64 = 1_000_000;

pub const SECONDS_PER_MINUTE: i64 = 60;

/// Whether `t` is an instant that a UTC date-time can hold.
pub open spec fn representable(t: int) -> bool {
    MIN_TIMESTAMP_MICROS <= t <= MAX_TIMESTAMP_MICROS
}

/// Whole seconds since the epoch of the instant `t` (rounded down).
pub open spec fn seconds_of(t: int) -> int {
    t / (MICROS_PER_SECOND as int)
}

/// The instant `seconds` whole seconds after `t`.
pub open spec fn after_seconds(t: int, seconds: int) -> int {
    t + seconds * (MICROS_PER_SECOND as int)
}

/// The current instant: `chrono::Utc::now()` read as `timestamp_micros()`.
/// It depends on the system clock, so nothing ties it to the arguments of any call;
/// the contract states only that it is an instant a UTC date-time can hold.
#[verifier::external_body]
pub(crate) fn utc_now_micros() -> (t: i64)
    ensures
        representable(t as int),
{
    chrono::Utc::now().timestamp_micros()
}

/// Whole seconds of an instant, rounded down, as `DateTime::timestamp` gives them.
pub fn seconds_of_instant(t: i64) -> (s: i64)
    requires
        representable(t as int),
    ensures
        s == seconds_of(t as int),
{
    if t >= 0 {
        t / MICROS_PER_SECOND
    } else {
        let u: i64 = -(t + 1);
        let q: i64 = u / MICROS_PER_SECOND;
        assert(q * 1_000_000 <= u < q * 1_000_000 + 1_000_000) by (nonlinear_arith)
            requires
                u >= 0,
                q == u / 1_000_000,
        ;
        assert((t as int) / 1_000_000 == -q - 1) by (nonlinear_arith)
            requires
                t == -u - 1,
                q * 1_000_000 <= u < q * 1_000_000 + 1_000_000,
        ;
        -q - 1
    }
}

/// The instant `seconds` after `t`, as `t + Duration::seconds(seconds)` computes it.
pub fn add_seconds(t: i64, seconds: i64) -> (r: i64)
    requires
        representable(t as int),
        representable(after_seconds(t as int, seconds as int)),
    ensures
        r == after_seconds(t as int, seconds as int),
{
    let wide: i128 = (t as i128) + (seconds as i128) * (MICROS_PER_SECOND as i128);
    wide as i64
}

} // verus!
