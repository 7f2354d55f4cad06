use vstd::prelude::*;
use crate::model::Timestamp;

verus! {

/// Relies on uuid::Uuid::new_v4: a random identifier whose version and
/// variant bits are set, so it is never the nil identifier.
#[verifier::external_body]
pub(crate) fn new_id() -> (r: u128)
    ensures
        r != 0,
{
    uuid::Uuid::new_v4().as_u128()
}

/// Relies on chrono::Utc::now: the current UTC time, as seconds since the
/// epoch and the nanoseconds past that second.
#[verifier::external_body]
pub(crate) fn now() -> (r: Timestamp) {
    let t = chrono::Utc::now();
    Timestamp { secs: t.timestamp(), nanos: t.timestamp_subsec_nanos() }
}

} // verus!
