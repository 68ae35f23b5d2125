//! Points in time and spans, as counts of clock ticks.
//!
//! The clock counts [`TICKS_PER_MS`] ticks in a millisecond.
use embassy_time::{Duration, Instant};
use vstd::prelude::*;

verus! {

pub const TICKS_PER_MS: u64 = 1000;

/// The number of ticks in `millis` milliseconds.
pub open spec fn ms_to_ticks(millis: u64) -> int {
    millis * TICKS_PER_MS
}

/// The whole milliseconds in `ticks`.
pub open spec fn ticks_to_ms(ticks: u64) -> u64 {
    ticks / TICKS_PER_MS
}

/// Calls `embassy_time::Duration::from_millis` and `Duration::as_ticks`. Claims that a span of
/// `millis` milliseconds is that many times [`TICKS_PER_MS`] ticks, as it is at the tick rate of one
/// megahertz.
#[verifier::external_body]
pub(crate) fn duration_from_millis(millis: u64) -> (ticks: u64)
    requires
        ms_to_ticks(millis) <= u64::MAX,
    ensures
        ticks == ms_to_ticks(millis),
{
    Duration::from_millis(millis).as_ticks()
}

/// Calls `embassy_time::Instant::as_millis`. Claims that the milliseconds are rounded down.
#[verifier::external_body]
pub(crate) fn instant_as_millis(ticks: u64) -> (millis: u64)
    ensures
        millis == ticks_to_ms(ticks),
{
    Instant::from_ticks(ticks).as_millis()
}

/// Calls `embassy_time::Instant::duration_since`, which panics when `earlier` lies after `now`.
/// Claims that the span is the difference of the two.
#[verifier::external_body]
pub(crate) fn duration_since(now: u64, earlier: u64) -> (ticks: u64)
    requires
        earlier <= now,
    ensures
        ticks == now - earlier,
{
    Instant::from_ticks(now).duration_since(Instant::from_ticks(earlier)).as_ticks()
}

} // verus!
