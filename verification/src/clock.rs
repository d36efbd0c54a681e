//! The clock: monotonic instants and wall-clock time.
use vstd::prelude::*;

verus! {

#[verifier::external_type_specification]
#[verifier::external_body]
pub struct ExInstant(std::time::Instant);

#[verifier::external_type_specification]
#[verifier::external_body]
pub struct ExSystemTime(std::time::SystemTime);

#[verifier::external_type_specification]
#[verifier::external_body]
pub struct ExSystemTimeError(std::time::SystemTimeError);

/// Reads the monotonic clock through `std::time::Instant::now`.
#[verifier::external_body]
pub(crate) fn instant_now() -> std::time::Instant {
    std::time::Instant::now()
}

/// The time since `t`, through `Instant::elapsed`; nothing is claimed of it,
/// as it depends on the clock.
#[verifier::external_body]
fn elapsed_since(t: &std::time::Instant) -> std::time::Duration {
    t.elapsed()
}

/// The time from `earlier` to `later` (zero where `later` is earlier),
/// through `Instant::duration_since`; nothing is claimed of it, as it
/// depends on the clock readings.
#[verifier::external_body]
fn duration_between(earlier: &std::time::Instant, later: &std::time::Instant) -> std::time::Duration {
    later.duration_since(*earlier)
}

/// The whole milliseconds of a duration, through `Duration::as_millis`.
#[verifier::external_body]
fn duration_millis(d: &std::time::Duration) -> u128 {
    d.as_millis()
}

/// The whole seconds of a duration, through `Duration::as_secs`.
#[verifier::external_body]
fn duration_secs(d: &std::time::Duration) -> u64 {
    d.as_secs()
}

/// Reads the wall clock through `std::time::SystemTime::now`.
#[verifier::external_body]
fn system_now() -> std::time::SystemTime {
    std::time::SystemTime::now()
}

/// The time from the Unix epoch to `t`, through
/// `SystemTime::duration_since(UNIX_EPOCH)`, which fails for a time before
/// the epoch.
#[verifier::external_body]
fn since_unix_epoch(t: &std::time::SystemTime) -> Result<std::time::Duration, std::time::SystemTimeError> {
    t.duration_since(std::time::UNIX_EPOCH)
}

/// The milliseconds since `t`.
pub(crate) fn millis_since(t: &std::time::Instant) -> u128 {
    duration_millis(&elapsed_since(t))
}

/// The milliseconds from `earlier` to `later`.
pub(crate) fn millis_between(earlier: &std::time::Instant, later: &std::time::Instant) -> u128 {
    duration_millis(&duration_between(earlier, later))
}

/// The milliseconds since the Unix epoch; zero before the epoch.
pub fn now_millis() -> u128 {
    match since_unix_epoch(&system_now()) {
        Ok(d) => duration_millis(&d),
        Err(_) => 0,
    }
}

/// The seconds since the Unix epoch; zero before the epoch.
pub fn now_secs() -> u64 {
    match since_unix_epoch(&system_now()) {
        Ok(d) => duration_secs(&d),
        Err(_) => 0,
    }
}

} // verus!
