//! Reading the wall clock.
use std::time::{SystemTime, UNIX_EPOCH};
use vstd::prelude::*;

verus! {

/// Relies on `std::time::SystemTime::duration_since(UNIX_EPOCH)` applied to
/// `SystemTime::now()`: whole seconds since the Unix epoch, or `None` when
/// the clock reads a time before the epoch. Nothing is promised of the value.
#[verifier::external_body]
pub(crate) fn unix_seconds() -> (r: Option<u64>) {
    match SystemTime::now().duration_since(UNIX_EPOCH) {
        Ok(elapsed) => Some(elapsed.as_secs()),
        Err(_) => None,
    }
}

} // verus!
