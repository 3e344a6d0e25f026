//! The time at which a document was stored.

use vstd::prelude::*;

verus! {

/// A moment: whole seconds since the start of 1970 in UTC, and the
/// nanoseconds into that second.
#[derive(Clone, Copy, Debug, PartialEq, Eq, Structural)]
pub struct Timestamp {
    pub seconds: i64,
    pub nanos: u32,
}

/// `chrono::Utc::now`, taken apart by `DateTime::timestamp` and
/// `DateTime::timestamp_subsec_nanos`: the moment of the call, by the clock of
/// the machine. Nothing is claimed of it. Trusted, not proved.
#[verifier::external_body]
pub(crate) fn now() -> Timestamp {
    let moment = chrono::Utc::now();
    Timestamp { seconds: moment.timestamp(), nanos: moment.timestamp_subsec_nanos() }
}

} // verus!
