//! The engine's one window onto the environment: the wall clock.

use std::time::{SystemTime, UNIX_EPOCH};
use vstd::prelude::*;

verus! {

/// Relies on std::time (SystemTime::now, duration_since, as_secs): the wall
/// clock's seconds since the Unix epoch, or 0 for a clock set before it.
/// Nothing is assumed of the result: every caller holds for every value.
#[verifier::external_body]
pub fn get_current_time_secs() -> u64 {
    match SystemTime::now().duration_since(UNIX_EPOCH) {
        Ok(d) => d.as_secs(),
        Err(_) => 0,
    }
}

} // verus!
