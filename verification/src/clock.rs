//! The clock, read through `chrono`.

use vstd::prelude::*;

verus! {

/// `chrono::Local::now`, as seconds since the Unix epoch (`DateTime::timestamp`).
/// The result is whatever the machine's clock says, so nothing is claimed of
/// it. `chrono` panics if the clock stands before the epoch.
#[verifier::external_body]
pub(crate) fn now_timestamp() -> (seconds: i64) {
    chrono::Local::now().timestamp()
}

} // verus!
