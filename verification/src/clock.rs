//! The wall clock.

use vstd::prelude::*;

verus! {

/// Reads the wall clock with `time::get_time` and hands out the whole seconds
/// since 1970-01-01T00:00:00Z that it reports. What comes back depends on the
/// moment of the call, so nothing is claimed of it.
#[verifier::external_body]
pub(crate) fn wall_clock_seconds() -> (seconds: i64) {
    time::get_time().sec
}

} // verus!
