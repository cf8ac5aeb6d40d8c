//! Durations and instants of `std::time`, which the library carries but does not compute.
use vstd::prelude::*;
use std::time::{Duration, Instant};

verus! {

#[verifier::external_type_specification]
#[verifier::external_body]
pub struct ExInstant(Instant);

/// The length of a duration in nanoseconds: what `Duration::as_nanos` returns for it.
pub uninterp spec fn duration_nanos(d: Duration) -> u128;

/// Calls `std::time::Duration::from_millis`: a duration of `ms` milliseconds.
#[verifier::external_body]
pub(crate) fn duration_from_millis(ms: u64) -> (d: Duration)
    ensures
        duration_nanos(d) == ms * 1_000_000,
{
    Duration::from_millis(ms)
}

/// Calls `std::time::Duration::from_secs`: a duration of `secs` whole seconds.
#[verifier::external_body]
pub(crate) fn duration_from_secs(secs: u64) -> (d: Duration)
    ensures
        duration_nanos(d) == secs * 1_000_000_000,
{
    Duration::from_secs(secs)
}

/// Calls `std::time::Duration::as_nanos`: the total number of nanoseconds in `d`, which
/// always fits in a `u128`.
#[verifier::external_body]
pub(crate) fn duration_as_nanos(d: &Duration) -> (n: u128)
    ensures
        n == duration_nanos(*d),
{
    d.as_nanos()
}

/// Calls `std::time::Instant::now`; nothing is stated of the result, which is the current time.
#[verifier::external_body]
pub(crate) fn instant_now() -> Instant {
    Instant::now()
}

/// Calls `std::time::Instant::elapsed`; nothing is stated of the result, which depends on the
/// current time.
#[verifier::external_body]
pub(crate) fn instant_elapsed(at: &Instant) -> Duration {
    at.elapsed()
}

} // verus!
