//! The wall clock.

use vstd::prelude::*;

verus! {

/// Reads the system clock and takes `timestamp()` of what chrono's
/// `DateTime::<Utc>::from` makes of it: the whole seconds since the Unix
/// epoch, negative where the clock stands before the epoch. Nothing is
/// promised of the value, which differs from call to call.
#[verifier::external_body]
pub(crate) fn epoch_seconds() -> i64 {
    chrono::DateTime::<chrono::Utc>::from(std::time::SystemTime::now()).timestamp()
}

} // verus!
