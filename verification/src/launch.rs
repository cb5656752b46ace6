//! The shared start: the coordinator fixes one instant a little ahead of now,
//! and no worker samples before it. Instants are whole seconds since the Unix
//! epoch; the caller reads the clock.

use vstd::prelude::*;

verus! {

/// Seconds between the coordinator's start and the kickoff, to cover the time
/// workers need to come up.
pub const LEAD_TIME_SECS: u64 = 3;

/// Seconds a worker lets pass after each sample.
pub const SAMPLE_INTERVAL_SECS: u64 = 1;

/// The kickoff instant `lead_time` seconds after `now`, if it can be told in
/// 64 bits.
pub open spec fn spec_compute_kickoff(now: u64, lead_time: u64) -> Option<u64> {
    if now + lead_time <= u64::MAX {
        Some((now + lead_time) as u64)
    } else {
        None
    }
}

/// The kickoff instant `lead_time` seconds after `now`; `None` if the sum
/// does not fit in 64 bits.
pub fn compute_kickoff(now: u64, lead_time: u64) -> (kickoff: Option<u64>)
    ensures
        kickoff == spec_compute_kickoff(now, lead_time),
{
    now.checked_add(lead_time)
}

/// Whether a worker that reads `now` off the clock may begin. An instant
/// already past counts as reached.
pub fn kickoff_reached(now: u64, kickoff: u64) -> (reached: bool)
    ensures
        reached == (now >= kickoff),
{
    now >= kickoff
}

} // verus!
