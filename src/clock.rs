use vstd::prelude::*;

verus! {

/// A point in time, as microseconds since the Unix epoch.
#[derive(Clone, Copy, Debug, PartialEq, Eq, Structural)]
pub struct Timestamp {
    pub micros: i64,
}

impl Timestamp {
    /// `self` is not earlier than `other`.
    pub open spec fn not_before(self, other: Timestamp) -> bool {
        self.micros >= other.micros
    }

}

/// Relies on chrono::Local::now, read through DateTime::timestamp_micros: the
/// wall-clock time at the call. Nothing is promised of the value.
#[verifier::external_body]
pub(crate) fn current_time() -> (r: Timestamp) {
    Timestamp { micros: chrono::Local::now().timestamp_micros() }
}

} // verus!
