use vstd::prelude::*;

verus! {

/// A point in time, in milliseconds since the Unix epoch. The time a record
/// was last modified doubles as the token of its optimistic lock.
#[derive(Copy, Clone, Debug, PartialEq, Eq, Structural)]
pub struct Timestamp {
    pub millis: i64,
}

/// `timestamp_millis` of `chrono::Utc::now()`. Nothing is claimed of the value:
/// it is whatever the system clock says.
#[verifier::external_body]
fn utc_now_millis() -> (millis: i64) {
    chrono::Utc::now().timestamp_millis()
}

impl Timestamp {
    /// The current time.
    pub fn now() -> Timestamp {
        Timestamp { millis: utc_now_millis() }
    }
}

} // verus!
