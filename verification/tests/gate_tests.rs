use governor::clock::FakeClock;
use governor::direct::RateLimiter;
use governor::jitter::Jitter;
use governor::quota::Quota;
use governor::outcome::CheckError;
use governor::outcome::NegativeOutcome;
use governor::sink_gate::GateAction;
use governor::sink_gate::GateState;
use governor::sink_gate::SinkGate;

#[test]
fn jitter_none_is_identity() {
    let jitter = Jitter::none();
    for sample in [0u64, 1, 17, u64::MAX] {
        assert_eq!(jitter.offset(sample), 0);
    }
}

#[test]
fn jitter_offset_in_interval() {
    assert!(Jitter::new(7, 5).is_none());
    let jitter = Jitter::new(5, 7).unwrap();
    // The sample is reduced into the interval width: 5 + sample % 3.
    assert_eq!(jitter.offset(0), 5);
    assert_eq!(jitter.offset(1), 6);
    assert_eq!(jitter.offset(2), 7);
    assert_eq!(jitter.offset(3), 5);
    let wide = Jitter::new(0, u64::MAX).unwrap();
    assert_eq!(wide.offset(123), 123);
    let capped = Jitter::up_to(10);
    assert_eq!(capped.offset(25), 25 % 11);
}

#[test]
fn wait_time_computation() {
    let outcome = NegativeOutcome { earliest_retry: 100 };
    assert_eq!(outcome.wait_time_from(40, Jitter::none(), 0), 60);
    // A reference past the earliest-retry instant asks for no base wait.
    assert_eq!(outcome.wait_time_from(100, Jitter::none(), 0), 0);
    assert_eq!(outcome.wait_time_from(150, Jitter::none(), 0), 0);
    // Jitter is added on top of the base wait.
    assert_eq!(outcome.wait_time_from(40, Jitter::new(5, 7).unwrap(), 1), 66);
    // The wait saturates at the top of the time representation.
    let far = NegativeOutcome { earliest_retry: u64::MAX };
    assert_eq!(far.wait_time_from(0, Jitter::up_to(10), 3), u64::MAX);
}

#[test]
fn gate_admission_protocol() {
    let mut gate = SinkGate::new(Jitter::none());
    assert_eq!(gate.state, GateState::NotReady);
    assert!(!gate.is_ready());
    let action = gate.on_check(Ok(()), 0, 0);
    assert_eq!(action, GateAction::Proceed);
    assert!(gate.is_ready());
    gate.start_send();
    assert_eq!(gate.state, GateState::NotReady);
}

#[test]
fn gate_denial_protocol() {
    let mut gate = SinkGate::new(Jitter::none());
    let reference: u64 = 1_000;
    let denial = CheckError::Denied(NegativeOutcome { earliest_retry: 1_250 });
    let action = gate.on_check(Err(denial), reference, 0);
    assert_eq!(action, GateAction::ArmTimer { wait_ns: 250 });
    // The denial alone moves no state: only a pending timer does.
    assert_eq!(gate.state, GateState::NotReady);
    gate.on_timer_pending();
    assert_eq!(gate.state, GateState::Wait);
    gate.on_timer_fired();
    assert_eq!(gate.state, GateState::NotReady);
    // A permanent rejection waits out the representation's horizon.
    let action = gate.on_check(Err(CheckError::InsufficientCapacity), reference, 0);
    assert_eq!(action, GateAction::ArmTimer { wait_ns: u64::MAX });
}

#[test]
fn async_admission_spacing() {
    // Drive the adapter's state machine by hand against a burst-1 quota:
    // back-to-back submissions come out spaced one emission interval apart.
    let interval: u64 = 1_000;
    let quota = Quota::new(1, interval).unwrap();
    let mut limiter = RateLimiter::direct_with_clock(quota, FakeClock::starting_at(0));
    let mut gate = SinkGate::new(Jitter::none());
    let mut submissions: Vec<u64> = Vec::new();
    while submissions.len() < 5 {
        match gate.state {
            GateState::NotReady => {
                let reference = limiter.reference_reading();
                match limiter.check() {
                    Ok(()) => {
                        let action = gate.on_check(Ok(()), reference, 0);
                        assert_eq!(action, GateAction::Proceed);
                    },
                    Err(denied) => {
                        let action = gate.on_check(Err(denied), reference, 0);
                        match action {
                            GateAction::ArmTimer { wait_ns } => {
                                gate.on_timer_pending();
                                // The one-shot timer fires after the wait.
                                limiter.clock.advance(wait_ns);
                                gate.on_timer_fired();
                            },
                            GateAction::Proceed => unreachable!(),
                        }
                    },
                }
            },
            GateState::Ready => {
                submissions.push(limiter.reference_reading());
                gate.start_send();
            },
            GateState::Wait => unreachable!(),
        }
    }
    assert_eq!(submissions, vec![0, 1_000, 2_000, 3_000, 4_000]);
}

#[test]
fn gate_denial_with_jitter() {
    let mut gate = SinkGate::new(Jitter::new(5, 7).unwrap());
    let denial = CheckError::Denied(NegativeOutcome { earliest_retry: 300 });
    let action = gate.on_check(Err(denial), 100, 2);
    assert_eq!(action, GateAction::ArmTimer { wait_ns: 207 });
}
