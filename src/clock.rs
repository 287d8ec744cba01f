//! Readings of the local clock.
use vstd::prelude::*;

verus! {

/// Relies on chrono's `Local::now` and its `format("%H:%M")`: the local
/// wall-clock time as "HH:MM", hour and minute each zero-padded to two digits
/// and joined by ':'. Which time comes back depends on the moment of the call.
#[verifier::external_body]
pub(crate) fn local_clock_hhmm() -> (r: String)
    ensures
        r@.len() == 5,
        r@[2] == ':',
{
    chrono::Local::now().format("%H:%M").to_string()
}

/// Relies on chrono's `Local::now` and `DateTime::timestamp`: the current Unix
/// time in seconds. What comes back depends on the moment of the call.
#[verifier::external_body]
pub(crate) fn unix_seconds() -> (r: i64) {
    chrono::Local::now().timestamp()
}

} // verus!
