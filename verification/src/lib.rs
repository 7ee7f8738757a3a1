//! Relay from device telemetry published over MQTT to a Prometheus-style
//! scrape endpoint: the latest observation per device is kept in memory,
//! stale entries are pruned at render time, and the ingestion state machine
//! keeps the broker subscription alive across reconnects.

use vstd::prelude::*;

pub mod ingest;
pub mod json;
pub mod metrics;
pub mod store;
pub mod text;
pub mod time;
pub mod types;

verus! {

/// Entries whose timestamp is at least this many seconds behind the render
/// time are considered stale and removed.
pub const STALE_THRESHOLD_SECS: u64 = 90;

/// Seconds the ingestion loop waits after a transport error before polling
/// again, so that it does not spin while the transport reconnects.
pub const RECOVERY_DELAY_SECS: u64 = 1;

/// An entry observed at `observed_at` is fresh at `now` when it is not from
/// the future and strictly less than `threshold` seconds old.
pub open spec fn is_fresh_spec(observed_at: int, now: int, threshold: int) -> bool {
    observed_at <= now && now - observed_at < threshold
}

} // verus!
