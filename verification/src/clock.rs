//! The wall clock, read through chrono.

use vstd::prelude::*;

verus! {

/// No timestamp that chrono's `DateTime<Utc>::timestamp` returns is larger
/// than this in magnitude: it is computed from a day count held in an `i32`.
pub const TIMESTAMP_BOUND: i64 = 200_000_000_000_000;

/// One billion: the nanoseconds in a second.
pub const NANOS_PER_SECOND: u32 = 1_000_000_000;

/// A moment: whole seconds since the Unix epoch, and the nanoseconds past them.
#[derive(Debug, Clone, Copy, PartialEq, Eq, Structural)]
pub struct UnixTime {
    pub seconds: i64,
    pub nanos: u32,
}

/// Calls `chrono::Utc::now()` and reads the moment's `timestamp()` and
/// `timestamp_subsec_nanos()`. The value depends on the moment of the call;
/// all that is claimed of it is its range: `now` measures the time since
/// the epoch (it panics on a clock set before it) with the sub-second part
/// of a `std::time::Duration`, and `timestamp` is computed from an `i32`
/// day count.
#[verifier::external_body]
pub(crate) fn current_unix_time() -> (t: UnixTime)
    ensures
        0 <= t.seconds <= TIMESTAMP_BOUND,
        t.nanos < NANOS_PER_SECOND,
{
    let now = chrono::Utc::now();
    UnixTime { seconds: now.timestamp(), nanos: now.timestamp_subsec_nanos() }
}

} // verus!
