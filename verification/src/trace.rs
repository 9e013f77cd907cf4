//! The probe cycle over a timed event trace.
//!
//! Given the transport events one cycle observes, in arrival order and
//! each stamped with the milliseconds since the cycle began, this module
//! states and computes the outcome the race produces and the instant at
//! which the cycle resolves: the first transport error before the timeout
//! ends the cycle at once; otherwise the cycle always runs to the full
//! timeout and the acknowledgment flag alone decides.

use vstd::prelude::*;

use crate::cycle::CycleEvent;
use crate::cycle::CycleState;
use crate::cycle::ProbeError;
use crate::cycle::spec_resolve_timer;
use crate::protocol::is_ack;

verus! {

/// One observable transport event during a probe cycle, stamped with the
/// milliseconds elapsed since the cycle began.
#[derive(Debug)]
pub enum WireEvent {
    /// A text frame arrived.
    Frame { at_ms: u64, payload: String },
    /// The connection reported a transport error.
    Fault { at_ms: u64, detail: String },
}

/// Whether an event is a transport error that arrives before the deadline.
pub open spec fn is_live_fault(e: WireEvent, deadline_ms: u64) -> bool {
    e matches WireEvent::Fault { at_ms, .. } && at_ms < deadline_ms
}

/// Whether an event is an acknowledgment frame that arrives before the
/// deadline.
pub open spec fn is_live_ack(e: WireEvent, deadline_ms: u64) -> bool {
    e matches WireEvent::Frame { at_ms, payload } && at_ms < deadline_ms && is_ack(payload@)
}

/// Whether some transport error arrives before the deadline.
pub open spec fn has_fault_before(events: Seq<WireEvent>, deadline_ms: u64) -> bool {
    exists|i: int| 0 <= i < events.len() && #[trigger] is_live_fault(events[i], deadline_ms)
}

/// Whether some acknowledgment frame arrives before the deadline.
pub open spec fn has_ack_before(events: Seq<WireEvent>, deadline_ms: u64) -> bool {
    exists|i: int| 0 <= i < events.len() && #[trigger] is_live_ack(events[i], deadline_ms)
}

/// The first transport error before the deadline, as its instant and its
/// detail, or `None` when no such error occurs.
pub open spec fn first_fault(events: Seq<WireEvent>, deadline_ms: u64) -> Option<(u64, String)>
    decreases events.len(),
{
    if events.len() == 0 {
        None
    } else {
        match events[0] {
            WireEvent::Fault { at_ms, detail } => if at_ms < deadline_ms {
                Some((at_ms, detail))
            } else {
                first_fault(events.drop_first(), deadline_ms)
            },
            WireEvent::Frame { .. } => first_fault(events.drop_first(), deadline_ms),
        }
    }
}

/// The outcome of one probe cycle over the events it observed: the first
/// transport error wins the race if it comes before the timeout; otherwise
/// the timer wins and the acknowledgment flag decides.
pub open spec fn spec_cycle_outcome(events: Seq<WireEvent>, timeout_ms: u64) -> Result<
    (),
    ProbeError,
> {
    match first_fault(events, timeout_ms) {
        Some(f) => Err(ProbeError::Transport(f.1)),
        None => spec_resolve_timer(has_ack_before(events, timeout_ms)),
    }
}

/// The instant, in milliseconds since the cycle began, at which the cycle
/// resolves: the first error's instant, or the full timeout.
pub open spec fn spec_cycle_end(events: Seq<WireEvent>, timeout_ms: u64) -> u64 {
    match first_fault(events, timeout_ms) {
        Some(f) => f.0,
        None => timeout_ms,
    }
}

/// Appending one event to a trace adds exactly that event's acknowledgment,
/// if it is one, to what the trace holds before the deadline.
proof fn lemma_ack_before_push(s: Seq<WireEvent>, e: WireEvent, deadline_ms: u64)
    ensures
        has_ack_before(s.push(e), deadline_ms) == (has_ack_before(s, deadline_ms)
            || is_live_ack(e, deadline_ms)),
{
    if has_ack_before(s, deadline_ms) {
        let i = choose|i: int| 0 <= i < s.len() && #[trigger] is_live_ack(s[i], deadline_ms);
        assert(s.push(e)[i] == s[i]);
        assert(is_live_ack(s.push(e)[i], deadline_ms));
    }
    if is_live_ack(e, deadline_ms) {
        assert(s.push(e)[s.len() as int] == e);
        assert(is_live_ack(s.push(e)[s.len() as int], deadline_ms));
    }
    if has_ack_before(s.push(e), deadline_ms) && !is_live_ack(e, deadline_ms) {
        let i = choose|i: int|
            0 <= i < s.push(e).len() && #[trigger] is_live_ack(s.push(e)[i], deadline_ms);
        assert(i < s.len());
        assert(s[i] == s.push(e)[i]);
        assert(is_live_ack(s[i], deadline_ms));
    }
}

/// Run one probe cycle over the events it observed, in arrival order, and
/// return the outcome together with the instant at which the cycle
/// resolves. Events stamped at or after the timeout arrive too late to
/// matter: by then the race has already been decided.
pub fn run_cycle(events: &Vec<WireEvent>, timeout_ms: u64) -> (r: (Result<(), ProbeError>, u64))
    ensures
        r.0 == spec_cycle_outcome(events@, timeout_ms),
        r.1 == spec_cycle_end(events@, timeout_ms),
{
    let mut st = CycleState::new();
    let n = events.len();
    let mut i: usize = 0;
    proof {
        assert(events@.skip(0) =~= events@);
    }
    while i < n
        invariant
            n == events@.len(),
            0 <= i <= n,
            st.done is None,
            st.pong_received == has_ack_before(events@.take(i as int), timeout_ms),
            first_fault(events@, timeout_ms) == first_fault(
                events@.skip(i as int),
                timeout_ms,
            ),
        decreases n - i,
    {
        proof {
            assert(events@.skip(i as int)[0] == events@[i as int]);
            assert(events@.take(i as int + 1) =~= events@.take(i as int).push(events@[i as int]));
            lemma_ack_before_push(events@.take(i as int), events@[i as int], timeout_ms);
            assert(events@.skip(i as int).drop_first() =~= events@.skip(i as int + 1));
        }
        match &events[i] {
            WireEvent::Frame { at_ms: _, payload: _ } => {},
            WireEvent::Fault { at_ms, detail } => {
                if *at_ms < timeout_ms {
                    return (Err(ProbeError::Transport(detail.clone())), *at_ms);
                }
            },
        }
        match &events[i] {
            WireEvent::Frame { at_ms, payload } => {
                if *at_ms < timeout_ms {
                    let _ = st.step(CycleEvent::Message(payload.clone()));
                }
            },
            WireEvent::Fault { at_ms: _, detail: _ } => {},
        }
        i = i + 1;
    }
    proof {
        assert(events@.skip(n as int) =~= Seq::<WireEvent>::empty());
        assert(events@.take(n as int) =~= events@);
    }
    (st.resolve_on_timer(), timeout_ms)
}

/// No transport error before the deadline is exactly when the trace has no
/// first fault.
pub proof fn lemma_first_fault_none(events: Seq<WireEvent>, deadline_ms: u64)
    ensures
        first_fault(events, deadline_ms) is None <==> !has_fault_before(events, deadline_ms),
    decreases events.len(),
{
    if events.len() == 0 {
    } else {
        lemma_first_fault_none(events.drop_first(), deadline_ms);
        if is_live_fault(events[0], deadline_ms) {
            assert(has_fault_before(events, deadline_ms));
        }
        if has_fault_before(events, deadline_ms) && !is_live_fault(events[0], deadline_ms) {
            let i = choose|i: int|
                0 <= i < events.len() && #[trigger] is_live_fault(events[i], deadline_ms);
            assert(events.drop_first()[i - 1] == events[i]);
            assert(is_live_fault(events.drop_first()[i - 1], deadline_ms));
        }
        if has_fault_before(events.drop_first(), deadline_ms) {
            let j = choose|j: int|
                0 <= j < events.drop_first().len() && #[trigger] is_live_fault(
                    events.drop_first()[j],
                    deadline_ms,
                );
            assert(events[j + 1] == events.drop_first()[j]);
            assert(is_live_fault(events[j + 1], deadline_ms));
        }
    }
}

/// Acknowledged in time: if the acknowledgment token arrives at any point
/// before the timer elapses and no transport error arrives before it, the
/// cycle resolves to success, and only when the timer elapses, not earlier.
pub proof fn lemma_acknowledged_in_time(events: Seq<WireEvent>, timeout_ms: u64)
    requires
        !has_fault_before(events, timeout_ms),
        has_ack_before(events, timeout_ms),
    ensures
        spec_cycle_outcome(events, timeout_ms) == Ok::<(), ProbeError>(()),
        spec_cycle_end(events, timeout_ms) == timeout_ms,
{
    lemma_first_fault_none(events, timeout_ms);
}

/// No acknowledgment: if no acknowledgment token and no transport error
/// arrive before the timer elapses, the cycle resolves to the
/// timeout-without-ack failure, exactly when the timer elapses.
pub proof fn lemma_no_acknowledgment(events: Seq<WireEvent>, timeout_ms: u64)
    requires
        !has_fault_before(events, timeout_ms),
        !has_ack_before(events, timeout_ms),
    ensures
        spec_cycle_outcome(events, timeout_ms) == Err::<(), ProbeError>(ProbeError::TimeoutNoAck),
        spec_cycle_end(events, timeout_ms) == timeout_ms,
{
    lemma_first_fault_none(events, timeout_ms);
}

/// Transport error preempts the timer: if a transport error arrives before
/// the timer elapses, the cycle resolves to that error at that instant,
/// regardless of the acknowledgment state.
pub proof fn lemma_transport_error_preempts(events: Seq<WireEvent>, timeout_ms: u64, i: int)
    requires
        0 <= i < events.len(),
        is_live_fault(events[i], timeout_ms),
        forall|j: int| 0 <= j < i ==> !is_live_fault(#[trigger] events[j], timeout_ms),
    ensures
        events[i] matches WireEvent::Fault { at_ms, detail } ==> spec_cycle_outcome(
            events,
            timeout_ms,
        ) == Err::<(), ProbeError>(ProbeError::Transport(detail)) && spec_cycle_end(
            events,
            timeout_ms,
        ) == at_ms && at_ms < timeout_ms,
    decreases i,
{
    if i == 0 {
    } else {
        assert(!is_live_fault(events[0], timeout_ms));
        assert forall|j: int| 0 <= j < i - 1 implies !is_live_fault(
            #[trigger] events.drop_first()[j],
            timeout_ms,
        ) by {
            assert(events.drop_first()[j] == events[j + 1]);
        }
        assert(events.drop_first()[i - 1] == events[i]);
        lemma_transport_error_preempts(events.drop_first(), timeout_ms, i - 1);
    }
}

} // verus!
