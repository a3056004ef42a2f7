//! Access to the system clock, behind one trusted item.

use vstd::prelude::*;

verus! {

/// Relies on std::time::SystemTime::now: the wall clock as
/// milliseconds since the Unix epoch, 0 when the clock reads earlier.
/// Nothing is promised of the value: callers state what holds of
/// every reading.
#[verifier::external_body]
pub(crate) fn now_unix_millis() -> u64 {
    match std::time::SystemTime::now().duration_since(std::time::UNIX_EPOCH) {
        Ok(d) => d.as_millis() as u64,
        Err(_) => 0,
    }
}

/// The wall clock as whole seconds since the Unix epoch.
pub(crate) fn now_unix_seconds() -> u64 {
    now_unix_millis() / 1000
}

} // verus!
