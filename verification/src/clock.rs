//! The wall clock, read once per command: the same instant feeds both the
//! minted id and the stored timestamps.

use vstd::prelude::*;
use chrono::Utc;

verus! {

/// One clock reading: the instant in milliseconds since the Unix epoch, and
/// its RFC 3339 rendering.
pub struct Stamp {
    pub millis: u64,
    pub rfc3339: String,
}

/// Relies on chrono's Utc::now and DateTime::timestamp_millis: the reading
/// depends on the environment, so nothing is promised of it.
#[verifier::external_body]
fn now_millis() -> (r: i64) {
    Utc::now().timestamp_millis()
}

/// Relies on chrono's Utc::now and DateTime::to_rfc3339: the rendering
/// depends on the environment, so nothing is promised of it.
#[verifier::external_body]
fn now_rfc3339() -> (r: String) {
    Utc::now().to_rfc3339()
}

/// Reads the clock once. A reading before the Unix epoch, which no running
/// system produces, is pinned to the epoch so that the milliseconds are a
/// plain unsigned count.
pub fn now_stamp() -> (s: Stamp) {
    let ms = now_millis();
    let millis: u64 = if ms >= 0 {
        ms as u64
    } else {
        0
    };
    Stamp { millis, rfc3339: now_rfc3339() }
}

} // verus!
