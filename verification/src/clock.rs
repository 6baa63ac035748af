//! The wall clock. Timestamps only decorate transactions, blocks and
//! security events; no contract depends on their values.

use vstd::prelude::*;

verus! {

/// Relies on `std::time::SystemTime::now`: the current time, reported as
/// whole seconds since the Unix epoch, or 0 when the clock reads earlier
/// than the epoch. Nothing is assumed of the value.
#[verifier::external_body]
pub fn now_seconds() -> u64 {
    match std::time::SystemTime::now().duration_since(std::time::UNIX_EPOCH) {
        Ok(d) => d.as_secs(),
        Err(_) => 0,
    }
}

} // verus!
