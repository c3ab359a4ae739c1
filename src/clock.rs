//! The wall clock, read through chrono.
use vstd::prelude::*;
use crate::model::Timestamp;

verus! {

/// Relies on chrono::Utc::now for the current UTC time, read in microseconds
/// since the Unix epoch by DateTime::timestamp_micros. Nothing is promised of
/// the value: it is whatever the clock says.
#[verifier::external_body]
pub(crate) fn utc_now() -> (r: Timestamp) {
    Timestamp { micros: chrono::Utc::now().timestamp_micros() }
}

} // verus!
