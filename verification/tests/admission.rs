use admission::engine::{AdmissionEngine, SignalKind};
use admission::inet::SocketAddress;
use admission::limits::{ConnectionAttempt, FixedOutcomeLimits, Limits, Outcome, ThresholdLimits};
use admission::time::Duration;

#[test]
fn attempt_snapshot_holds_given_values() {
    let peer = SocketAddress::new(0x7f00_0001, 4433);
    let attempt = ConnectionAttempt::new(12, &peer);
    assert_eq!(attempt.inflight_handshakes, 12);
    assert_eq!(*attempt.source_address, peer);
}

#[test]
fn duration_counts_whole_milliseconds() {
    let delay = Duration::from_millis(50);
    assert_eq!(delay.millis, 50);
}

#[test]
fn reference_policy_scenario() {
    // threshold = 100, delay = 50 ms; 150 -> Retry{50ms}, 50 -> Allow,
    // exactly 100 -> Allow (the boundary is inclusive).
    let mut policy = ThresholdLimits::new(100, Duration::from_millis(50));
    let peer = SocketAddress::new(9, 9000);

    let over = ConnectionAttempt::new(150, &peer);
    assert_eq!(
        policy.on_connection_attempt(&over),
        Outcome::Retry { delay: Duration::from_millis(50) }
    );

    let under = ConnectionAttempt::new(50, &peer);
    assert_eq!(policy.on_connection_attempt(&under), Outcome::Allow);

    let boundary = ConnectionAttempt::new(100, &peer);
    assert_eq!(policy.on_connection_attempt(&boundary), Outcome::Allow);
}

#[test]
fn reference_policy_threshold_boundary() {
    // One past the threshold defers with the configured delay; at the
    // threshold the attempt is allowed.
    let mut policy = ThresholdLimits::new(7, Duration::from_millis(3));
    let peer = SocketAddress::new(1, 1);

    let just_over = ConnectionAttempt::new(8, &peer);
    assert_eq!(
        policy.on_connection_attempt(&just_over),
        Outcome::Retry { delay: Duration::from_millis(3) }
    );

    let at = ConnectionAttempt::new(7, &peer);
    assert_eq!(policy.on_connection_attempt(&at), Outcome::Allow);
}

#[test]
fn repeated_decisions_agree() {
    // Fixed policy state, fixed attempt: the same outcome every time.
    let mut policy = ThresholdLimits::new(4, Duration::from_millis(10));
    let peer = SocketAddress::new(3, 300);
    let attempt = ConnectionAttempt::new(5, &peer);
    let first = policy.on_connection_attempt(&attempt);
    let second = policy.on_connection_attempt(&attempt);
    let third = policy.on_connection_attempt(&attempt);
    assert_eq!(first, second);
    assert_eq!(second, third);
}

#[test]
fn every_outcome_is_exactly_one_variant() {
    let outcomes = vec![
        Outcome::Allow,
        Outcome::Retry { delay: Duration::from_millis(1) },
        Outcome::Drop,
        Outcome::Close { delay: Duration::from_millis(2) },
    ];
    let mut seen = [0usize; 4];
    for outcome in outcomes {
        // The match is exhaustive: a fifth case would not compile, and
        // each arm is reached by exactly one of the four values.
        match outcome {
            Outcome::Allow => seen[0] += 1,
            Outcome::Retry { delay } => {
                assert_eq!(delay, Duration::from_millis(1));
                seen[1] += 1;
            }
            Outcome::Drop => seen[2] += 1,
            Outcome::Close { delay } => {
                assert_eq!(delay, Duration::from_millis(2));
                seen[3] += 1;
            }
        }
    }
    assert_eq!(seen, [1, 1, 1, 1]);
}

#[test]
fn counter_returns_after_balanced_completions() {
    // N allows followed by N completions bring the counter back to its
    // pre-sequence value.
    let policy = ThresholdLimits::new(1000, Duration::from_millis(5));
    let mut engine = AdmissionEngine::new(policy);

    // Establish a non-zero baseline first.
    for port in 0..3u16 {
        let peer = SocketAddress::new(100, port);
        assert_eq!(engine.handle_attempt(0, &peer), Outcome::Allow);
    }
    assert_eq!(engine.inflight, 3);

    for port in 0..5u16 {
        let peer = SocketAddress::new(200, port);
        assert_eq!(engine.handle_attempt(1, &peer), Outcome::Allow);
    }
    assert_eq!(engine.inflight, 8);
    for _ in 0..5 {
        assert!(!engine.on_handshake_finished());
    }
    assert_eq!(engine.inflight, 3);
}

#[test]
fn counter_underflow_saturates_at_zero() {
    let policy = ThresholdLimits::new(0, Duration::from_millis(5));
    let mut engine = AdmissionEngine::new(policy);
    assert_eq!(engine.inflight, 0);
    // The violation is surfaced as an event, not a crash, and the counter
    // stays at zero.
    assert!(engine.on_handshake_finished());
    assert_eq!(engine.inflight, 0);
}

#[test]
fn superseded_retry_fires_into_nothing() {
    // Attempt from `slow` is deferred; before its retry is due, a fresh
    // attempt from the same peer is allowed and completes a handshake.
    // When the scheduled retry comes due it performs no action.
    let policy = ThresholdLimits::new(0, Duration::from_millis(50));
    let mut engine = AdmissionEngine::new(policy);
    let first = SocketAddress::new(10, 1000);
    let slow = SocketAddress::new(20, 2000);

    assert_eq!(engine.handle_attempt(0, &first), Outcome::Allow);
    assert_eq!(
        engine.handle_attempt(1, &slow),
        Outcome::Retry { delay: Duration::from_millis(50) }
    );
    assert_eq!(engine.pending.len(), 1);

    // The first handshake finishes; the duplicate attempt is now allowed
    // and its handshake completes too.
    assert!(!engine.on_handshake_finished());
    assert_eq!(engine.handle_attempt(3, &slow), Outcome::Allow);
    assert!(!engine.on_handshake_finished());

    let fired = engine.poll_due(60);
    assert_eq!(fired.len(), 0);
    assert_eq!(engine.pending.len(), 0);
}

#[test]
fn unsuperseded_challenge_fires_when_due() {
    let policy = ThresholdLimits::new(0, Duration::from_millis(50));
    let mut engine = AdmissionEngine::new(policy);
    let first = SocketAddress::new(10, 1000);
    let deferred = SocketAddress::new(30, 3000);

    assert_eq!(engine.handle_attempt(0, &first), Outcome::Allow);
    assert_eq!(
        engine.handle_attempt(1, &deferred),
        Outcome::Retry { delay: Duration::from_millis(50) }
    );

    let fired = engine.poll_due(51);
    assert_eq!(fired.len(), 1);
    assert_eq!(fired[0].kind, SignalKind::Challenge);
    assert_eq!(fired[0].peer, deferred);
    assert_eq!(fired[0].due_ms, 51);
    assert_eq!(engine.pending.len(), 0);
}

#[test]
fn actions_not_yet_due_stay_queued() {
    let policy = ThresholdLimits::new(0, Duration::from_millis(50));
    let mut engine = AdmissionEngine::new(policy);
    let first = SocketAddress::new(10, 1000);
    let deferred = SocketAddress::new(30, 3000);

    assert_eq!(engine.handle_attempt(0, &first), Outcome::Allow);
    assert_eq!(
        engine.handle_attempt(1, &deferred),
        Outcome::Retry { delay: Duration::from_millis(50) }
    );

    let fired = engine.poll_due(50);
    assert_eq!(fired.len(), 0);
    assert_eq!(engine.pending.len(), 1);
    assert_eq!(engine.pending[0].due_ms, 51);
}

#[test]
fn fired_signals_keep_scheduling_order() {
    let policy = ThresholdLimits::new(0, Duration::from_millis(10));
    let mut engine = AdmissionEngine::new(policy);
    let first = SocketAddress::new(10, 1000);
    let second = SocketAddress::new(40, 4000);
    let third = SocketAddress::new(50, 5000);

    assert_eq!(engine.handle_attempt(0, &first), Outcome::Allow);
    assert!(matches!(engine.handle_attempt(1, &second), Outcome::Retry { .. }));
    assert!(matches!(engine.handle_attempt(2, &third), Outcome::Retry { .. }));

    let fired = engine.poll_due(100);
    assert_eq!(fired.len(), 2);
    assert_eq!(fired[0].peer, second);
    assert_eq!(fired[1].peer, third);
}

#[test]
fn drop_outcome_leaves_no_trace() {
    let policy = FixedOutcomeLimits::new(Outcome::Drop);
    let mut engine = AdmissionEngine::new(policy);
    let peer = SocketAddress::new(60, 6000);

    assert_eq!(engine.handle_attempt(5, &peer), Outcome::Drop);
    assert_eq!(engine.inflight, 0);
    assert_eq!(engine.pending.len(), 0);
    assert_eq!(engine.admitted.len(), 0);
}

#[test]
fn close_outcome_schedules_termination() {
    let policy =
        FixedOutcomeLimits::new(Outcome::Close { delay: Duration::from_millis(5) });
    let mut engine = AdmissionEngine::new(policy);
    let peer = SocketAddress::new(70, 7000);

    assert_eq!(
        engine.handle_attempt(100, &peer),
        Outcome::Close { delay: Duration::from_millis(5) }
    );
    assert_eq!(engine.inflight, 0);
    assert_eq!(engine.pending.len(), 1);
    assert_eq!(engine.pending[0].kind, SignalKind::Termination);
    assert_eq!(engine.pending[0].due_ms, 105);
    assert_eq!(engine.pending[0].peer, peer);

    let fired = engine.poll_due(105);
    assert_eq!(fired.len(), 1);
    assert_eq!(fired[0].kind, SignalKind::Termination);
}

#[test]
fn allow_all_policy_admits_everything() {
    let policy = FixedOutcomeLimits::new(Outcome::Allow);
    let mut engine = AdmissionEngine::new(policy);
    for port in 0..4u16 {
        let peer = SocketAddress::new(80, port);
        assert_eq!(engine.handle_attempt(0, &peer), Outcome::Allow);
    }
    assert_eq!(engine.inflight, 4);
    assert_eq!(engine.pending.len(), 0);
}

#[test]
fn due_time_saturates_at_clock_end() {
    let policy =
        FixedOutcomeLimits::new(Outcome::Close { delay: Duration::from_millis(u64::MAX) });
    let mut engine = AdmissionEngine::new(policy);
    let peer = SocketAddress::new(90, 9000);

    engine.handle_attempt(10, &peer);
    assert_eq!(engine.pending.len(), 1);
    assert_eq!(engine.pending[0].due_ms, u64::MAX);
}
