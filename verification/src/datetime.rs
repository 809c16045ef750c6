//! Points in time, in milliseconds since the Unix epoch.

use vstd::prelude::*;

verus! {

/// A timestamp with millisecond precision.
#[derive(Clone, Copy, Debug, PartialEq, Eq, Structural, Hash, PartialOrd, Ord)]
pub struct DateTime {
    pub millis: i64,
}

/// Calls `bson::DateTime::now` and reads its milliseconds. Nothing is claimed
/// of the result: it is whatever the clock says.
#[verifier::external_body]
pub(crate) fn system_now() -> (now: DateTime) {
    DateTime { millis: bson::DateTime::now().timestamp_millis() }
}

impl DateTime {
    /// The timestamp `millis` milliseconds after the epoch.
    pub fn from_millis(millis: i64) -> (at: DateTime)
        ensures
            at.millis == millis,
    {
        DateTime { millis }
    }
}

} // verus!
