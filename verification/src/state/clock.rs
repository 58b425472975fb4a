//! The wall clock.

use vstd::prelude::*;

use crate::state::state::Timestamp;

verus! {

/// The local wall-clock time of this moment, from `chrono::Local::now` and
/// `DateTime::naive_local`, as seconds and nanoseconds. Nothing is claimed
/// of the value: it is whatever the clock and time zone of the machine say.
/// `chrono` panics where that clock stands before 1970 or past the dates
/// that it can hold.
#[verifier::external_body]
pub(crate) fn now_local() -> (now: Timestamp) {
    let local = chrono::offset::Local::now().naive_local().and_utc();
    Timestamp { secs: local.timestamp(), nanos: local.timestamp_subsec_nanos() }
}

} // verus!
