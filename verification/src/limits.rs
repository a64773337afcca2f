use vstd::prelude::*;

use crate::inet::SocketAddress;
use crate::time::Duration;

verus! {

/// Outcome describes how the endpoint should proceed on a connection
/// attempt. The policy uses information from the ConnectionAttempt to
/// determine how the endpoint should handle the connection attempt.
///
/// The set is closed: every decision is exactly one of these four variants,
/// and a delay, where present, is the time to wait before acting.
#[derive(Clone, Copy, Debug, Eq, PartialEq, Structural)]
pub enum Outcome {
    /// Allow the connection to continue.
    Allow,
    /// Defer the connection by sending a Retry packet after a `delay`.
    Retry { delay: Duration },
    /// Silently drop the connection attempt.
    Drop,
    /// Cleanly close the connection after a `delay`.
    Close { delay: Duration },
}

/// A ConnectionAttempt holds information about the state of the endpoint
/// receiving a connection, along with information about the connection. This
/// can be used to make decisions about the Outcome of an attempted
/// connection.
///
/// It is an immutable snapshot, built once per attempt right before the
/// policy is called and discarded once the outcome is applied. The record is
/// open: future fields may be added without breaking existing policies.
#[non_exhaustive]
#[derive(Clone, Copy, Debug)]
pub struct ConnectionAttempt<'a> {
    /// Number of handshakes that have begun but not completed.
    pub inflight_handshakes: usize,

    /// The unverified address of the connecting peer.
    /// This address comes from the datagram.
    pub source_address: &'a SocketAddress,
}

impl<'a> ConnectionAttempt<'a> {
    /// Builds the snapshot of one attempt: the in-flight handshake count as
    /// observed at decision time, and the peer's address as read from the
    /// datagram. The descriptor borrows the address; its lifetime is
    /// strictly shorter than the datagram buffer the address came from.
    pub fn new(inflight_handshakes: usize, source_address: &'a SocketAddress) -> (attempt: Self)
        ensures
            attempt.inflight_handshakes == inflight_handshakes,
            attempt.source_address == source_address,
    {
        Self { inflight_handshakes, source_address }
    }
}

/// This trait is used to determine the outcome of connection attempts on an
/// endpoint. The implementor returns an Outcome based on the
/// ConnectionAttempt, or other information that the implementor may have.
///
/// A policy may hold mutable state of its own across calls; the engine never
/// calls the same instance concurrently. The decision itself is
/// deterministic: what `on_connection_attempt` returns is fixed by the
/// policy's state at the call and the attempt alone, as `decide_spec` says.
pub trait Limits: Sized {
    /// The decision relation of this policy: the outcome it returns when its
    /// state is `self` and the attempt under decision is `info`.
    spec fn decide_spec(&self, info: ConnectionAttempt) -> Outcome;

    /// The state this policy carries into the next decision after deciding
    /// `info` in state `self`. A policy without internal state returns
    /// `self` unchanged.
    spec fn next_spec(&self, info: ConnectionAttempt) -> Self;

    /// Decide one connection attempt. Both the outcome and the policy's new
    /// state are fixed by the state at the call and the attempt alone, as
    /// `decide_spec` and `next_spec` say.
    fn on_connection_attempt(&mut self, info: &ConnectionAttempt) -> (outcome: Outcome)
        ensures
            outcome == old(self).decide_spec(*info),
            *final(self) == old(self).next_spec(*info),
    ;
}

/// The reference policy: a fixed threshold on endpoint load. While the
/// attempt's in-flight handshake count is at or under `threshold` the
/// attempt is allowed; past the threshold the peer is deferred with a Retry
/// after `retry_delay`.
#[derive(Clone, Copy, Debug, Eq, PartialEq, Structural)]
pub struct ThresholdLimits {
    /// Largest in-flight handshake count at which an attempt is still
    /// allowed (the boundary is inclusive).
    pub threshold: usize,
    /// How long to wait before sending the Retry packet once the threshold
    /// is exceeded.
    pub retry_delay: Duration,
}

impl ThresholdLimits {
    /// Builds the policy with the given inclusive threshold and retry delay.
    pub fn new(threshold: usize, retry_delay: Duration) -> (limits: Self)
        ensures
            limits.threshold == threshold,
            limits.retry_delay == retry_delay,
    {
        Self { threshold, retry_delay }
    }
}

impl Limits for ThresholdLimits {
    open spec fn decide_spec(&self, info: ConnectionAttempt) -> Outcome {
        if info.inflight_handshakes > self.threshold {
            Outcome::Retry { delay: self.retry_delay }
        } else {
            Outcome::Allow
        }
    }

    open spec fn next_spec(&self, info: ConnectionAttempt) -> Self {
        *self
    }

    fn on_connection_attempt(&mut self, info: &ConnectionAttempt) -> (outcome: Outcome) {
        if info.inflight_handshakes > self.threshold {
            Outcome::Retry { delay: self.retry_delay }
        } else {
            Outcome::Allow
        }
    }
}

/// A policy with no state and one configured answer: it returns the same
/// outcome for every attempt. With `Outcome::Allow` it is the no-op
/// allow-all policy; with a Drop, Retry or Close outcome it sheds every
/// attempt, which an endpoint may want while it drains.
#[derive(Clone, Copy, Debug, Eq, PartialEq, Structural)]
pub struct FixedOutcomeLimits {
    /// The outcome returned for every attempt.
    pub outcome: Outcome,
}

impl FixedOutcomeLimits {
    /// Builds the policy that answers every attempt with `outcome`.
    pub fn new(outcome: Outcome) -> (limits: Self)
        ensures
            limits.outcome == outcome,
    {
        Self { outcome }
    }
}

impl Limits for FixedOutcomeLimits {
    open spec fn decide_spec(&self, info: ConnectionAttempt) -> Outcome {
        self.outcome
    }

    open spec fn next_spec(&self, info: ConnectionAttempt) -> Self {
        *self
    }

    fn on_connection_attempt(&mut self, info: &ConnectionAttempt) -> (outcome: Outcome) {
        self.outcome
    }
}

/// Determinism law: for a fixed policy state and a fixed attempt descriptor
/// the decision is unique — any two outcomes of the decision relation for
/// that state and that attempt are the same outcome. Repeated calls of
/// `on_connection_attempt` from one state therefore return the same outcome.
pub proof fn lemma_decide_deterministic<L: Limits>(
    policy: &L,
    info: ConnectionAttempt,
    first: Outcome,
    second: Outcome,
)
    requires
        first == policy.decide_spec(info),
        second == policy.decide_spec(info),
    ensures
        first == second,
{
}

/// Threshold law for the reference policy: with threshold T and delay D, an
/// attempt whose in-flight count is T + 1 is deferred with a Retry carrying
/// exactly D, and an attempt whose in-flight count is exactly T is allowed.
pub proof fn lemma_threshold_boundary(
    policy: ThresholdLimits,
    over: ConnectionAttempt,
    at: ConnectionAttempt,
)
    requires
        over.inflight_handshakes == policy.threshold + 1,
        at.inflight_handshakes == policy.threshold,
    ensures
        policy.decide_spec(over) == (Outcome::Retry { delay: policy.retry_delay }),
        policy.decide_spec(at) == Outcome::Allow,
{
}

/// Exhaustiveness law: every decision is exactly one of the four outcomes —
/// one of them always holds, and no two hold at once.
pub proof fn lemma_outcome_exhaustive(outcome: Outcome)
    ensures
        outcome is Allow || outcome is Retry || outcome is Drop || outcome is Close,
        outcome is Allow ==> !(outcome is Retry) && !(outcome is Drop) && !(outcome is Close),
        outcome is Retry ==> !(outcome is Allow) && !(outcome is Drop) && !(outcome is Close),
        outcome is Drop ==> !(outcome is Allow) && !(outcome is Retry) && !(outcome is Close),
        outcome is Close ==> !(outcome is Allow) && !(outcome is Retry) && !(outcome is Drop),
{
}

} // verus!
