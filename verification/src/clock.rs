//! Durations, and the timestamps of metric items.
use crate::json;
use crate::json::JsonNumber;
use std::time::Duration;
use vstd::prelude::*;

verus! {

/// The nanoseconds in a duration.
pub uninterp spec fn duration_nanos(d: Duration) -> nat;

/// The bit pattern of the double that `Duration::as_secs_f64` gives for a
/// duration of `nanos` nanoseconds.
pub uninterp spec fn seconds_bits(nanos: nat) -> u64;

/// `Duration::from_secs`: that many whole seconds.
pub assume_specification[ Duration::from_secs ](secs: u64) -> (r: Duration)
    ensures
        duration_nanos(r) == secs * 1_000_000_000,
;

/// `SystemTime::elapsed` on `UNIX_EPOCH`: the time from the epoch to what the
/// system clock shows, or nothing where the clock shows a time before the
/// epoch. The clock decides the result, so nothing is claimed of it.
#[verifier::external_body]
pub(crate) fn since_epoch() -> (r: Option<Duration>) {
    std::time::UNIX_EPOCH.elapsed().ok()
}

/// `Number::from_f64` of `Duration::as_secs_f64`: a duration in seconds is a
/// finite double, so there is a result, and it holds that double.
#[verifier::external_body]
fn seconds_number(d: Duration) -> (r: Option<serde_json::Number>)
    ensures
        json::optional_number(r) == Some(JsonNumber::Float(seconds_bits(duration_nanos(d)))),
{
    serde_json::Number::from_f64(d.as_secs_f64())
}

/// The timestamp for a clock that is `since` past the epoch: those seconds as
/// a double, or `0.0` for a clock that shows a time before the epoch.
pub open spec fn timestamp(since: Option<Duration>) -> JsonNumber {
    match since {
        Some(d) => JsonNumber::Float(seconds_bits(duration_nanos(d))),
        None => json::zero(),
    }
}

/// The timestamp for a clock that is `since` past the epoch, or that shows a
/// time before the epoch.
pub fn epoch_secs(since: Option<Duration>) -> (r: Option<serde_json::Number>)
    ensures
        json::optional_number(r) == Some(timestamp(since)),
{
    match since {
        Some(d) => seconds_number(d),
        None => json::zero_number(),
    }
}

/// `since` is a reading that the system clock gave: a result of a call of
/// [`since_epoch`]. Nothing else is known to be one.
pub closed spec fn is_clock_reading(since: Option<Duration>) -> bool {
    call_ensures(since_epoch, (), since)
}

/// Every clock reading came from the system clock.
pub(crate) proof fn law_a_clock_reading_comes_from_the_clock(since: Option<Duration>)
    ensures
        is_clock_reading(since) <==> call_ensures(since_epoch, (), since),
{
}

/// What `clock` gives when it is read once.
fn read_clock<C: Fn() -> Option<Duration>>(clock: C) -> (r: Option<Duration>)
    requires
        call_requires(clock, ()),
    ensures
        call_ensures(clock, (), r),
{
    clock()
}

/// Current epoch seconds, with their fraction: the timestamp of a reading that
/// the system clock gave.
pub fn now_epoch_secs() -> (r: Option<serde_json::Number>)
    ensures
        exists|since: Option<Duration>| #[trigger]
            is_clock_reading(since) && json::optional_number(r) == Some(timestamp(since)),
{
    let since = read_clock(since_epoch);
    let r = epoch_secs(since);
    assert(is_clock_reading(since));
    r
}

} // verus!
