//! Points in time and durations as nanoseconds.

use crate::outside::MAX_NANOS;
use instant::Instant;
use std::time::Duration;
use vstd::prelude::*;

verus! {

/// `now` is what a clock that was started at `start` can show.
pub open spec fn clock_shows(start: Instant, now: u128) -> bool {
    exists|instant: Instant, elapsed: Duration|
        {
            &&& call_ensures(Instant::now, (), instant)
            &&& #[trigger] call_ensures(
                Instant::saturating_duration_since,
                (&instant, start),
                elapsed,
            )
            &&& call_ensures(Duration::as_nanos, (&elapsed,), now)
        }
}

/// Reads a clock that was started at `start`.
pub fn read_clock(start: Instant) -> (now: u128)
    ensures
        clock_shows(start, now),
        now <= MAX_NANOS,
{
    Instant::now().saturating_duration_since(start).as_nanos()
}

/// The whole seconds in a number of nanoseconds, and the nanoseconds that are left; none if
/// there are more than a duration can hold.
pub fn split_nanos(nanos: u128) -> (parts: Option<(u64, u32)>)
    ensures
        parts is None <==> nanos > MAX_NANOS,
        parts matches Some((seconds, rest)) ==> {
            &&& rest < 1_000_000_000
            &&& seconds * 1_000_000_000 + rest == nanos
        },
{
    if nanos <= MAX_NANOS {
        let seconds: u64 = (nanos / 1_000_000_000) as u64;
        let rest: u32 = (nanos % 1_000_000_000) as u32;
        Some((seconds, rest))
    } else {
        None
    }
}

/// A clock started at `start` shows the nanoseconds from then to the moment it is read, or none
/// if `start` is yet to come.
pub proof fn law_clock_reads_now(start: Instant, now: u128)
    requires
        call_ensures(read_clock, (start,), now),
    ensures
        exists|instant: Instant, elapsed: Duration|
            {
                &&& call_ensures(Instant::now, (), instant)
                &&& #[trigger] call_ensures(
                    Instant::saturating_duration_since,
                    (&instant, start),
                    elapsed,
                )
                &&& call_ensures(Duration::as_nanos, (&elapsed,), now)
            },
{
}

/// Splitting undoes the counting of a duration in nanoseconds: every number of whole seconds
/// and of nanoseconds short of a second comes out of the nanoseconds that they make, and
/// nothing comes out of more than those make.
pub proof fn law_split_nanos(nanos: u128, parts: Option<(u64, u32)>, seconds: u64, rest: u32)
    requires
        call_ensures(split_nanos, (nanos,), parts),
        rest < 1_000_000_000,
    ensures
        nanos == seconds * 1_000_000_000 + rest <==> parts == Some((seconds, rest)),
        parts is None <==> nanos > u64::MAX * 1_000_000_000 + 999_999_999,
{
}

} // verus!
