//! The wall clock, behind a trusted boundary: what it returns holds of no
//! two calls alike, so every caller states its guarantees for an arbitrary
//! sample.

use vstd::prelude::*;

verus! {

/// Relies on faketime::unix_time_as_millis: milliseconds since the UNIX
/// epoch, or the faked value while a test drives the clock. Nothing can be
/// promised of the sample; callers must hold for every value.
#[verifier::external_body]
pub fn unix_time_as_millis() -> u64 {
    faketime::unix_time_as_millis()
}

} // verus!
