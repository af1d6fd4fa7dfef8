//! The clock.
use vstd::prelude::*;

verus! {

/// The whole seconds between the Unix epoch and now, where the clock stands
/// after the epoch. Wraps `SystemTime::now`, `duration_since` and
/// `Duration::as_secs`; what it returns depends on the clock, so nothing is
/// claimed of it.
#[verifier::external_body]
pub(crate) fn seconds_since_epoch() -> (r: Option<u64>) {
    match std::time::SystemTime::now().duration_since(std::time::UNIX_EPOCH) {
        Ok(d) => Some(d.as_secs()),
        Err(_) => None,
    }
}

/// The time now in whole seconds since the Unix epoch; `None` where the
/// clock stands before the epoch.
pub fn get_utc_timestamp() -> (r: Option<u64>) {
    seconds_since_epoch()
}

} // verus!
