//! The wall clock, reduced to a plain number.
//!
//! Everything that reasons about time in this crate takes a millisecond
//! reading as an argument; this is the one place a reading is taken.

use vstd::prelude::*;

verus! {

/// Relies on std::time::SystemTime::now: the current wall-clock time, here
/// read as whole milliseconds since the Unix epoch (zero if the clock sits
/// before it). Nothing is promised of the value: the clock may jump, so
/// every caller must hold for an arbitrary reading.
#[verifier::external_body]
pub fn now_millis() -> u64 {
    match std::time::SystemTime::now().duration_since(std::time::UNIX_EPOCH) {
        Ok(d) => d.as_millis() as u64,
        Err(_) => 0,
    }
}

} // verus!
