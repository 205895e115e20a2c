//! Labelling tick counts with a stream time base, as `mediatime`
//! timestamps.

use vstd::prelude::*;

use mediatime::{Timebase, Timestamp};

verus! {

/// `mediatime::Timebase`, a stream's time base (an exact rational).
#[verifier::external_type_specification]
#[verifier::external_body]
pub struct ExTimebase(Timebase);

/// `mediatime::Timestamp`, a tick count in a time base.
#[verifier::external_type_specification]
#[verifier::external_body]
pub struct ExTimestamp(Timestamp);

/// The timestamp that `mediatime::Timestamp::new` builds from a tick count
/// and a time base.
pub uninterp spec fn timestamp_of(pts: i64, time_base: Timebase) -> Timestamp;

/// The timestamp of a tick count in a time base, when there is one.
pub open spec fn spec_stream_timestamp(ticks: Option<i64>, time_base: Timebase) -> Option<Timestamp> {
    match ticks {
        Some(t) => Some(timestamp_of(t, time_base)),
        None => None,
    }
}

/// `mediatime::Timestamp::new`: pairs a tick count with a time base.
///
/// The claim is only that the result is the one named `timestamp_of` for
/// these two arguments: the constructor stores both and computes nothing,
/// so equal arguments give equal timestamps. `Timestamp` is opaque here, so
/// what its accessors give back is not stated.
#[verifier::external_body]
fn timestamp_new(pts: i64, time_base: Timebase) -> (r: Timestamp)
    ensures
        r == timestamp_of(pts, time_base),
{
    Timestamp::new(pts, time_base)
}

/// The tick count in time base `to` that `ms` milliseconds come to, as
/// `mediatime::Timebase::checked_rescale` rescales them out of
/// `Timebase::MILLIS` (rounding to nearest); none where that method answers
/// none.
pub uninterp spec fn millis_in(ms: i64, to: Timebase) -> Option<i64>;

/// `mediatime::Timebase::checked_rescale`, from `Timebase::MILLIS` into
/// `to`.
///
/// The claim is only that the result is the one named `millis_in` for these
/// arguments: the method is plain arithmetic on them. Which values it
/// gives, and when it gives none (a zero-numerator `to`, or a count outside
/// `i64`), is not stated, as `Timebase` is opaque here.
#[verifier::external_body]
pub(crate) fn rescale_millis(ms: i64, to: Timebase) -> (r: Option<i64>)
    ensures
        r == millis_in(ms, to),
{
    Timebase::MILLIS.checked_rescale(ms, to)
}

/// The timestamp of a tick count in the stream's time base; none when
/// there is no tick count.
pub fn stream_timestamp(ticks: Option<i64>, time_base: Timebase) -> (r: Option<Timestamp>)
    ensures
        r == spec_stream_timestamp(ticks, time_base),
        r is Some <==> ticks is Some,
{
    match ticks {
        Some(t) => Some(timestamp_new(t, time_base)),
        None => None,
    }
}

} // verus!
