//! One probe cycle's state machine: the acknowledgment flag, the
//! single-use outcome, and the decision that turns events into a result.
//!
//! The host owns the connection, the timer and the outcome channel; it
//! hands every event to [`CycleState::step`] and performs the returned
//! action. All decisions live here.

use vstd::prelude::*;

use crate::protocol::is_ack;
use crate::protocol::payload_is_ack;

verus! {

/// Why a probe cycle failed.
#[derive(Debug, Clone, PartialEq, Eq)]
pub enum ProbeError {
    /// The connection could not be created (for example, a malformed
    /// endpoint); carries the construction failure's detail.
    Construction(String),
    /// The connection reported an error during the cycle; carries its detail.
    Transport(String),
    /// The timer elapsed and the acknowledgment flag was never set.
    TimeoutNoAck,
    /// The outcome channel's producer side was dropped without sending.
    ChannelClosed,
}

impl ProbeError {
    /// The text that [`ProbeError::message`] returns.
    pub open spec fn spec_message(self) -> Seq<char> {
        match self {
            ProbeError::Construction(d) => d@,
            ProbeError::Transport(d) => d@,
            ProbeError::TimeoutNoAck => "no acknowledgment received"@,
            ProbeError::ChannelClosed => "could not receive response"@,
        }
    }

    /// A human-readable description, for the host's best-effort log line.
    pub fn message(&self) -> (m: String)
        ensures
            m@ == self.spec_message(),
    {
        match self {
            ProbeError::Construction(d) => d.clone(),
            ProbeError::Transport(d) => d.clone(),
            ProbeError::TimeoutNoAck => "no acknowledgment received".to_owned(),
            ProbeError::ChannelClosed => "could not receive response".to_owned(),
        }
    }
}

/// An event the host delivers to one probe cycle.
#[derive(Debug)]
pub enum CycleEvent {
    /// The connection could not be constructed; carries the failure detail.
    ConstructionFailed(String),
    /// The connection reached the open state.
    Opened,
    /// A text frame arrived with this payload.
    Message(String),
    /// The connection reported a transport error; carries its detail.
    TransportError(String),
    /// The per-probe timeout's timer elapsed.
    TimerElapsed,
    /// The outcome channel's producer was dropped without sending.
    SignalDropped,
}

/// What the host must do after handing an event to the cycle.
#[derive(Debug, PartialEq, Eq)]
pub enum CycleAction {
    /// Send the probe token as a text frame; a send failure is swallowed.
    SendProbe,
    /// Nothing: the event at most updated the cycle state.
    Ignore,
    /// The cycle is over with this outcome; every later event is inert.
    Conclude(Result<(), ProbeError>),
}

/// The state one probe cycle shares between its handlers and its decision.
///
/// No value of this type outlives its cycle; cycles are independent.
#[derive(Debug)]
pub struct CycleState {
    /// Set once an acknowledgment payload arrives; never reset in the cycle.
    pub pong_received: bool,
    /// The cycle's outcome once it has resolved; `None` while it is racing.
    pub done: Option<Result<(), ProbeError>>,
}

/// The decision when the timer wins the race: the flag alone decides.
pub open spec fn spec_resolve_timer(pong_received: bool) -> Result<(), ProbeError> {
    if pong_received {
        Ok(())
    } else {
        Err(ProbeError::TimeoutNoAck)
    }
}

/// What one event does to the cycle: the new state and the host's action.
///
/// A resolved cycle absorbs every further event without effect, so a late
/// event (one delivered after the race has been decided) is provably inert.
pub open spec fn spec_step(s: CycleState, e: CycleEvent) -> (CycleState, CycleAction) {
    if s.done is Some {
        (s, CycleAction::Ignore)
    } else {
        match e {
            CycleEvent::ConstructionFailed(d) => (
                CycleState {
                    pong_received: s.pong_received,
                    done: Some(Err(ProbeError::Construction(d))),
                },
                CycleAction::Conclude(Err(ProbeError::Construction(d))),
            ),
            CycleEvent::Opened => (s, CycleAction::SendProbe),
            CycleEvent::Message(p) => (
                CycleState { pong_received: s.pong_received || is_ack(p@), done: s.done },
                CycleAction::Ignore,
            ),
            CycleEvent::TransportError(d) => (
                CycleState {
                    pong_received: s.pong_received,
                    done: Some(Err(ProbeError::Transport(d))),
                },
                CycleAction::Conclude(Err(ProbeError::Transport(d))),
            ),
            CycleEvent::TimerElapsed => (
                CycleState {
                    pong_received: s.pong_received,
                    done: Some(spec_resolve_timer(s.pong_received)),
                },
                CycleAction::Conclude(spec_resolve_timer(s.pong_received)),
            ),
            CycleEvent::SignalDropped => (
                CycleState {
                    pong_received: s.pong_received,
                    done: Some(Err(ProbeError::ChannelClosed)),
                },
                CycleAction::Conclude(Err(ProbeError::ChannelClosed)),
            ),
        }
    }
}

impl CycleState {
    /// A fresh cycle: flag clear, outcome unresolved.
    pub fn new() -> (s: CycleState)
        ensures
            !s.pong_received,
            s.done is None,
    {
        CycleState { pong_received: false, done: None }
    }

    /// The decision when the timer elapses first: success exactly when the
    /// acknowledgment flag is set, else the timeout-without-ack failure.
    pub fn resolve_on_timer(&self) -> (r: Result<(), ProbeError>)
        ensures
            r == spec_resolve_timer(self.pong_received),
    {
        if self.pong_received {
            Ok(())
        } else {
            Err(ProbeError::TimeoutNoAck)
        }
    }

    /// Advance the cycle by one event and tell the host what to do.
    pub fn step(&mut self, event: CycleEvent) -> (action: CycleAction)
        ensures
            *final(self) == spec_step(*old(self), event).0,
            action == spec_step(*old(self), event).1,
    {
        if self.done.is_some() {
            return CycleAction::Ignore;
        }
        match event {
            CycleEvent::ConstructionFailed(d) => {
                let d2 = d.clone();
                self.done = Some(Err(ProbeError::Construction(d)));
                CycleAction::Conclude(Err(ProbeError::Construction(d2)))
            },
            CycleEvent::Opened => CycleAction::SendProbe,
            CycleEvent::Message(p) => {
                let hit = payload_is_ack(&p);
                self.pong_received = self.pong_received || hit;
                CycleAction::Ignore
            },
            CycleEvent::TransportError(d) => {
                let d2 = d.clone();
                self.done = Some(Err(ProbeError::Transport(d)));
                CycleAction::Conclude(Err(ProbeError::Transport(d2)))
            },
            CycleEvent::TimerElapsed => {
                let stored = self.resolve_on_timer();
                let reported = self.resolve_on_timer();
                self.done = Some(stored);
                CycleAction::Conclude(reported)
            },
            CycleEvent::SignalDropped => {
                self.done = Some(Err(ProbeError::ChannelClosed));
                CycleAction::Conclude(Err(ProbeError::ChannelClosed))
            },
        }
    }
}

/// Once the acknowledgment flag is set, no later event clears it; and once
/// the cycle has resolved, every later event leaves the state unchanged and
/// asks nothing of the host.
pub proof fn lemma_cycle_state_stable(s: CycleState, e: CycleEvent)
    ensures
        s.pong_received ==> spec_step(s, e).0.pong_received,
        s.done is Some ==> spec_step(s, e).0 == s && spec_step(s, e).1 == CycleAction::Ignore,
{
}

/// Receiving the same payload twice in one cycle has the same effect on the
/// cycle state as receiving it once; in particular the acknowledgment flag
/// is set idempotently.
pub proof fn lemma_ack_idempotent(s: CycleState, p: String)
    ensures
        spec_step(spec_step(s, CycleEvent::Message(p)).0, CycleEvent::Message(p)).0
            == spec_step(s, CycleEvent::Message(p)).0,
{
}

/// A non-acknowledgment text frame neither sets the acknowledgment flag nor
/// ends the cycle: the state is unchanged and the host does nothing.
pub proof fn lemma_ignored_payload(s: CycleState, p: String)
    requires
        !is_ack(p@),
    ensures
        spec_step(s, CycleEvent::Message(p)).0 == s,
        spec_step(s, CycleEvent::Message(p)).1 == CycleAction::Ignore,
{
}

} // verus!
