//! The one external dependency: reading the wall clock.

use vstd::prelude::*;
use std::time::SystemTime;
use std::time::UNIX_EPOCH;

verus! {

/// Relies on std::time::SystemTime::now and SystemTime::duration_since:
/// the milliseconds elapsed since the Unix epoch, or 0 if the system
/// clock reads earlier than the epoch.  Nothing is assumed of the
/// value: two reads may return anything, in any order, so every caller
/// must cope with an arbitrary result.
#[verifier::external_body]
pub(crate) fn current_unix_millis() -> u64 {
    match SystemTime::now().duration_since(UNIX_EPOCH) {
        Ok(elapsed) => elapsed.as_millis() as u64,
        Err(_) => 0,
    }
}

} // verus!
