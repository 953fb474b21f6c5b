//! The wall clock.

use crate::model::Timestamp;
use vstd::prelude::*;

verus! {

/// Reads the clock with `chrono::Utc::now` and hands back the seconds and
/// nanoseconds of that instant. Nothing is claimed of the reading: two
/// calls differ. `Utc::now` itself stops the program where the system clock
/// stands before the Unix epoch.
#[verifier::external_body]
pub(crate) fn now_utc() -> (now: Timestamp) {
    let now = chrono::Utc::now();
    Timestamp { secs: now.timestamp(), nanos: now.timestamp_subsec_nanos() }
}

} // verus!
