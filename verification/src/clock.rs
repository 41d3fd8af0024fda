//! The wall clock.

use vstd::prelude::*;

verus! {

/// The machine's clock, read by `std::time::SystemTime::now` and counted in
/// milliseconds from the Unix epoch by chrono: `TimeDelta::from_std` gives
/// the distance from the epoch, `DateTime::checked_add_signed` or
/// `DateTime::checked_sub_signed` on `DateTime::UNIX_EPOCH` the time, and
/// `DateTime::timestamp_millis` the count. A clock that stands before 1970
/// gives a negative count. The reading is `None` where chrono cannot hold
/// the time, which is so some 262,000 years from the epoch. None of these
/// calls can fail otherwise. Nothing is claimed of the value: two readings
/// may differ in either direction.
#[verifier::external_body]
pub(crate) fn clock_millis() -> (reading: Option<i64>) {
    let epoch = chrono::DateTime::<chrono::Utc>::UNIX_EPOCH;
    let moment = match std::time::SystemTime::now().duration_since(std::time::UNIX_EPOCH) {
        Ok(after) => epoch.checked_add_signed(chrono::TimeDelta::from_std(after).ok()?),
        Err(before) => {
            epoch.checked_sub_signed(chrono::TimeDelta::from_std(before.duration()).ok()?)
        },
    };
    moment.map(|time| time.timestamp_millis())
}

/// The present moment in milliseconds since the Unix epoch. Where the
/// machine's clock gives no time that can be counted, the epoch itself
/// stands in for it.
pub(crate) fn now_millis() -> (now: i64) {
    match clock_millis() {
        Some(reading) => reading,
        None => 0,
    }
}

} // verus!
