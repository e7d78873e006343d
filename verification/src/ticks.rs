//! Tick arithmetic, over `embassy-time`'s own types.
//!
//! The System Timer counts at a fixed 1 MHz and `embassy-time` is built for
//! that rate, so a tick is a microsecond. Instants and durations cross this
//! crate as plain tick counts; every conversion into ticks and every step
//! forward in time goes through `embassy-time`.

use embassy_time::{Duration, Instant};
use vstd::prelude::*;

verus! {

/// Ticks in a second.
pub const TICK_HZ: u64 = 1_000_000;

/// Ticks in a millisecond.
pub const TICKS_PER_MILLI: u64 = 1_000;

/// `embassy_time::Duration::from_secs`, as ticks: the seconds times the tick
/// rate, which has to fit.
#[verifier::external_body]
pub(crate) fn from_secs(secs: u64) -> (ticks: u64)
    requires
        secs * TICK_HZ <= u64::MAX,
    ensures
        ticks == secs * TICK_HZ,
{
    Duration::from_secs(secs).as_ticks()
}

/// `embassy_time::Duration::from_millis`, as ticks: a thousand for each
/// millisecond, which has to fit.
#[verifier::external_body]
pub(crate) fn from_millis(millis: u64) -> (ticks: u64)
    requires
        millis * TICKS_PER_MILLI <= u64::MAX,
    ensures
        ticks == millis * TICKS_PER_MILLI,
{
    Duration::from_millis(millis).as_ticks()
}

/// `embassy_time::Duration::from_micros`, as ticks: one for each
/// microsecond. The largest count is left out, since rounding it up
/// overflows inside.
#[verifier::external_body]
pub(crate) fn from_micros(micros: u64) -> (ticks: u64)
    requires
        micros < u64::MAX,
    ensures
        ticks == micros,
{
    Duration::from_micros(micros).as_ticks()
}

/// `embassy_time::Instant + embassy_time::Duration`, as ticks: the sum. The
/// addition panics past the last instant, so the sum has to fit.
#[verifier::external_body]
pub(crate) fn after(now: u64, ticks: u64) -> (at: u64)
    requires
        now + ticks <= u64::MAX,
    ensures
        at == now + ticks,
{
    (Instant::from_ticks(now) + Duration::from_ticks(ticks)).as_ticks()
}

} // verus!
