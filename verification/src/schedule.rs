//! The scheduler loop's decisions: what to do after one probe cycle.
//!
//! The loop itself is the host's: it runs a cycle, performs the directive
//! returned here (log on failure, then wait), and repeats forever. A
//! cycle's failure never stops the loop; the wait after a cycle is always
//! exactly one interval, whatever the cycle's outcome was.

use vstd::prelude::*;

use crate::cycle::ProbeError;

verus! {

/// What the host's loop must do between one probe cycle and the next.
#[derive(Debug, PartialEq, Eq)]
pub struct SchedulerDirective {
    /// Emit one best-effort log line for the failed cycle; never on success.
    pub log_failure: bool,
    /// Suspend for exactly this long before the next cycle, in milliseconds.
    pub wait_ms: u64,
}

/// The directive after one cycle: log exactly the failures, and wait one
/// full interval whatever the outcome was, so that no run of failures can
/// delay or hasten the next cycle.
pub open spec fn spec_plan_after_cycle(
    outcome: Result<(), ProbeError>,
    interval_ms: u64,
) -> SchedulerDirective {
    SchedulerDirective { log_failure: outcome is Err, wait_ms: interval_ms }
}

/// Decide what the loop does after a cycle with this outcome.
pub fn plan_after_cycle(outcome: &Result<(), ProbeError>, interval_ms: u64) -> (d:
    SchedulerDirective)
    ensures
        d == spec_plan_after_cycle(*outcome, interval_ms),
{
    SchedulerDirective { log_failure: outcome.is_err(), wait_ms: interval_ms }
}

/// Milliseconds of a whole number of seconds, as the entry point takes its
/// interval and timeout in seconds.
pub fn secs_to_ms(seconds: u32) -> (ms: u64)
    ensures
        ms == seconds * 1000,
{
    (seconds as u64) * 1000
}

/// The instant at which the next cycle starts, one interval after the
/// previous cycle ended, or `None` where that instant cannot be
/// represented.
pub fn next_start_ms(end_ms: u64, interval_ms: u64) -> (r: Option<u64>)
    ensures
        end_ms + interval_ms <= u64::MAX ==> r == Some((end_ms + interval_ms) as u64),
        end_ms + interval_ms > u64::MAX ==> r is None,
{
    end_ms.checked_add(interval_ms)
}

/// When each cycle starts, measured in milliseconds from the first cycle's
/// start: each cycle takes its own duration, and the loop then waits one
/// interval, whatever the cycle's outcome was.
pub open spec fn spec_cycle_start(durations_ms: Seq<u64>, interval_ms: u64, k: int) -> int
    decreases k,
{
    if k <= 0 {
        0
    } else {
        spec_cycle_start(durations_ms, interval_ms, k - 1) + durations_ms[k - 1] + interval_ms
    }
}

/// Loop resilience: however many consecutive cycles fail, the next cycle
/// starts exactly one interval after the previous one ended. The start of
/// a cycle depends only on the durations of the cycles before it, never on
/// their outcomes, which [`spec_cycle_start`] does not even mention; the
/// wait itself is the same for every outcome.
pub proof fn lemma_loop_resilience(
    durations_ms: Seq<u64>,
    interval_ms: u64,
    k: int,
    outcome: Result<(), ProbeError>,
)
    requires
        0 <= k < durations_ms.len(),
    ensures
        spec_cycle_start(durations_ms, interval_ms, k + 1) == spec_cycle_start(
            durations_ms,
            interval_ms,
            k,
        ) + durations_ms[k] + interval_ms,
        spec_plan_after_cycle(outcome, interval_ms).wait_ms == interval_ms,
{
}

} // verus!
