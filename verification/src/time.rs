//! Wall-clock access. Time enters the system only as whole seconds since the
//! Unix epoch; nothing is assumed about the clock's value.

use vstd::prelude::*;

verus! {

#[verifier::external_type_specification]
#[verifier::external_body]
pub struct ExSystemTime(std::time::SystemTime);

/// Relies on `SystemTime::duration_since` and `Duration::as_secs`: whole
/// seconds since the Unix epoch, zero for times before it. Nothing is
/// assumed of the value.
#[verifier::external_body]
pub fn epoch_secs(ts: &std::time::SystemTime) -> u64 {
    ts.duration_since(std::time::UNIX_EPOCH).unwrap_or(std::time::Duration::ZERO).as_secs()
}

/// Relies on `SystemTime::now`: the wall clock, about which nothing is
/// assumed.
#[verifier::external_body]
fn system_time_now() -> std::time::SystemTime {
    std::time::SystemTime::now()
}

/// The current wall-clock time as whole seconds since the Unix epoch.
pub fn now_epoch_secs() -> u64 {
    epoch_secs(&system_time_now())
}

} // verus!
