//! The wall clock, read through `chrono`. Nothing is known of what a clock
//! returns, so nothing is promised of the result.

use vstd::prelude::*;

verus! {

/// `std::time::SystemTime::now`, chrono's conversion of a `SystemTime` to
/// a `DateTime<Utc>`, and `DateTime::timestamp_micros`: microseconds since
/// the epoch, by the system's clock. The conversion is defined for the
/// times before 1970 as well, which then count as negative; it covers
/// some 262,000 years to either side of the epoch, far more than the
/// clock of an operating system counts.
#[verifier::external_body]
pub(crate) fn now_micros() -> i64 {
    chrono::DateTime::<chrono::Utc>::from(std::time::SystemTime::now()).timestamp_micros()
}

} // verus!
