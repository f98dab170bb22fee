//! The decision core of the asynchronous backpressure adapter.
//!
//! The adapter wraps a downstream consumer of items so that each admission
//! is gated by a rate limiter, suspending — without blocking a thread —
//! until admitted.  Its protocol is a three-state machine:
//!
//! - **NotReady** (initial): on each scheduling opportunity the driver takes
//!   a reference reading, checks the limiter, and feeds the result to
//!   [`SinkGate::on_check`].  An admission moves to **Ready**; a denial
//!   yields the jittered wait to arm a one-shot timer with, and the state
//!   moves to **Wait** only once the timer reports itself pending
//!   ([`SinkGate::on_timer_pending`]).
//! - **Wait**: suspended until the timer fires; on fire
//!   ([`SinkGate::on_timer_fired`]) the machine returns to **NotReady** to
//!   re-evaluate, since other callers may have changed the limiter's state
//!   meanwhile.
//! - **Ready**: one item submission is permitted; submitting
//!   ([`SinkGate::start_send`]) returns to **NotReady**.  Submitting in any
//!   other state is a protocol violation — a caller bug, which the driver
//!   must treat as fatal rather than proceed silently; accordingly
//!   `start_send` *requires* readiness, and drivers test
//!   [`SinkGate::is_ready`] first.
//!
//! Only admission is gated: flushing, closing and any produced items pass
//! through the adapter untouched, and the driver performs them without
//! consulting the machine.  A driver dropped while waiting mutates nothing
//! here or in the limiter: the denial that produced the pending wait
//! committed no state change.
//!
//! The timer, the scheduler and the downstream consumer live with the
//! driver at the application boundary; everything the adapter decides is
//! here.

use vstd::prelude::*;
use crate::jitter::Jitter;
use crate::outcome::CheckError;
use crate::outcome::spec_wait_time;

verus! {

/// Where the adapter stands in its admission protocol.
#[derive(Clone, Copy, Debug, PartialEq, Eq, Structural)]
pub enum GateState {
    NotReady,
    Wait,
    Ready,
}

/// What a `NotReady` evaluation asks the driver to do next.
#[derive(Clone, Copy, Debug, PartialEq, Eq, Structural)]
pub enum GateAction {
    /// Admitted: ready to submit; poll the downstream consumer.
    Proceed,
    /// Denied: arm the one-shot timer for `wait_ns` nanoseconds, then poll
    /// it, reporting back whether it is already elapsed or still pending.
    ArmTimer { wait_ns: u64 },
}

/// The adapter's state machine: its protocol state and the jitter applied
/// to every computed wait.
pub struct SinkGate {
    pub state: GateState,
    pub jitter: Jitter,
}

impl SinkGate {
    /// Well-formedness: the jitter interval is well formed.
    pub open spec fn wf(&self) -> bool {
        self.jitter.wf()
    }

    /// A gate in its initial state, perturbing waits by `jitter`.
    pub fn new(jitter: Jitter) -> (g: SinkGate)
        requires
            jitter.wf(),
        ensures
            g.state is NotReady,
            g.jitter == jitter,
            g.wf(),
    {
        SinkGate { state: GateState::NotReady, jitter }
    }

    /// Whether one item submission is currently permitted.
    pub fn is_ready(&self) -> (r: bool)
        ensures
            r <==> self.state is Ready,
    {
        match self.state {
            GateState::Ready => true,
            _ => false,
        }
    }

    /// Feeds the result of a weight-1 check taken at the reference reading
    /// `reference` into a `NotReady` machine.  An admission moves it to
    /// `Ready`; a retryable denial computes the jittered wait from the
    /// reference (using the random `sample`); a permanent denial — which a
    /// weight-1 check reports only when the time representation is
    /// exhausted — waits out the representation's horizon.
    pub fn on_check(&mut self, r: Result<(), CheckError>, reference: u64, sample: u64) -> (a:
        GateAction)
        requires
            old(self).wf(),
            old(self).state is NotReady,
        ensures
            final(self).wf(),
            final(self).jitter == old(self).jitter,
            r is Ok ==> final(self).state is Ready && a == GateAction::Proceed,
            r is Err ==> final(self).state is NotReady,
            (match r {
                Ok(()) => true,
                Err(CheckError::Denied(neg)) => a == (GateAction::ArmTimer {
                    wait_ns: spec_wait_time(
                        neg.earliest_retry,
                        reference,
                        old(self).jitter,
                        sample,
                    ) as u64,
                }),
                Err(CheckError::InsufficientCapacity) => a == (GateAction::ArmTimer {
                    wait_ns: u64::MAX,
                }),
            }),
    {
        match r {
            Ok(()) => {
                self.state = GateState::Ready;
                GateAction::Proceed
            },
            Err(CheckError::Denied(negative)) => {
                let wait = negative.wait_time_from(reference, self.jitter, sample);
                GateAction::ArmTimer { wait_ns: wait }
            },
            Err(CheckError::InsufficientCapacity) => {
                GateAction::ArmTimer { wait_ns: u64::MAX }
            },
        }
    }

    /// The armed timer reported itself pending: suspend until it fires.
    pub fn on_timer_pending(&mut self)
        requires
            old(self).state is NotReady,
        ensures
            final(self).state is Wait,
            final(self).jitter == old(self).jitter,
    {
        self.state = GateState::Wait;
    }

    /// The timer fired: return to `NotReady` and re-evaluate the limiter.
    pub fn on_timer_fired(&mut self)
        requires
            old(self).state is Wait,
        ensures
            final(self).state is NotReady,
            final(self).jitter == old(self).jitter,
    {
        self.state = GateState::NotReady;
    }

    /// Consumes the permission that readiness grants: the driver hands the
    /// item downstream and the machine returns to `NotReady`.  Calling this
    /// without readiness is the protocol violation the module documentation
    /// describes, so readiness is required.
    pub fn start_send(&mut self)
        requires
            old(self).state is Ready,
        ensures
            final(self).state is NotReady,
            final(self).jitter == old(self).jitter,
    {
        self.state = GateState::NotReady;
    }
}

} // verus!
