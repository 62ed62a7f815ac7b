//! The monotonic clock that idle readings are taken from.
//!
//! A reading is the number of nanoseconds elapsed since a fixed origin
//! instant, taken when a session starts.
use vstd::prelude::*;

verus! {

/// Nanoseconds in one second.
pub const NANOS_PER_SEC: u128 = 1_000_000_000;

/// The largest number of nanoseconds a `Duration` can hold: `u64::MAX`
/// whole seconds and a fractional part below one second.
pub const MAX_CLOCK_NANOS: u128 = 18_446_744_073_709_551_615 * 1_000_000_000 + 999_999_999;

/// `std::time::Instant`, a point of the monotonic clock, held opaque.
#[verifier::external_type_specification]
#[verifier::external_body]
pub struct ExInstant(std::time::Instant);

/// Relies on `Instant::now`: some instant of the monotonic clock; nothing is
/// promised of which.
pub assume_specification[ std::time::Instant::now ]() -> std::time::Instant;

/// Relies on `Instant::elapsed`: the time since the given instant, saturating
/// at zero; nothing is promised of its length.
pub assume_specification[ std::time::Instant::elapsed ](
    instant: &std::time::Instant,
) -> std::time::Duration;

/// Relies on `Duration::as_nanos`: a duration holds at most `u64::MAX` whole
/// seconds and fewer than one billion nanoseconds besides.
pub assume_specification[ core::time::Duration::as_nanos ](
    duration: &core::time::Duration,
) -> (r: u128)
    ensures
        r <= 18_446_744_073_709_551_615 * 1_000_000_000 + 999_999_999,
;

/// Nanoseconds elapsed since `origin`, as an integer reading.
pub fn nanos_since(origin: &std::time::Instant) -> (r: u128)
    ensures
        r <= MAX_CLOCK_NANOS,
{
    let elapsed = origin.elapsed();
    elapsed.as_nanos()
}

} // verus!
