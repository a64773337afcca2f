use vstd::prelude::*;

use crate::inet::SocketAddress;
use crate::limits::{ConnectionAttempt, Limits, Outcome};
use crate::time::Duration;

verus! {

/// The kind of delayed signal the engine schedules on behalf of a decision.
#[derive(Clone, Copy, Debug, Eq, PartialEq, Structural)]
pub enum SignalKind {
    /// A stateless retry packet, challenging the peer to prove address
    /// ownership before the endpoint commits resources.
    Challenge,
    /// A connection-close/termination signal.
    Termination,
}

/// One delayed action, waiting in the engine's timer queue until its due
/// time: which signal to send, to which peer, and from when on it may fire.
#[derive(Clone, Copy, Debug, Eq, PartialEq, Structural)]
pub struct ScheduledAction {
    /// Which signal to emit when the action fires.
    pub kind: SignalKind,
    /// The point in time, in engine-clock milliseconds, at which the action
    /// becomes due.
    pub due_ms: u64,
    /// The peer the signal is addressed to.
    pub peer: SocketAddress,
}

/// The in-flight counter after one more handshake is admitted: one more
/// than before, saturating at the machine limit rather than overflowing.
pub open spec fn inc_sat(count: int) -> int {
    if count < usize::MAX {
        count + 1
    } else {
        count
    }
}

/// The in-flight counter after one handshake finishes: one less than
/// before, saturating at zero rather than underflowing.
pub open spec fn dec_sat(count: int) -> int {
    if count > 0 {
        count - 1
    } else {
        count
    }
}

/// The counter after `n` handshakes have been admitted one by one.
pub open spec fn inc_n(count: int, n: nat) -> int
    decreases n,
{
    if n == 0 {
        count
    } else {
        inc_sat(inc_n(count, (n - 1) as nat))
    }
}

/// The counter after `n` handshakes have finished one by one.
pub open spec fn dec_n(count: int, n: nat) -> int
    decreases n,
{
    if n == 0 {
        count
    } else {
        dec_sat(dec_n(count, (n - 1) as nat))
    }
}

/// The due time of a signal decided at `now_ms` with the given delay:
/// `now_ms + delay`, saturating at the end of the clock's range (a delay
/// that cannot be represented is never shortened, only pushed to the
/// clock's maximum).
pub open spec fn due_time(now_ms: u64, delay: Duration) -> u64 {
    if now_ms + delay.millis <= u64::MAX {
        (now_ms + delay.millis) as u64
    } else {
        u64::MAX
    }
}

/// The attempt descriptor the engine hands to its policy: the in-flight
/// count it observed, and the peer's address from the datagram.
pub open spec fn attempt_of(inflight: usize, source_address: &SocketAddress) -> ConnectionAttempt {
    ConnectionAttempt { inflight_handshakes: inflight, source_address }
}

/// Whether a waiting action is due at `now_ms`.
pub open spec fn is_due(action: ScheduledAction, now_ms: u64) -> bool {
    action.due_ms <= now_ms
}

/// Whether a waiting action actually fires at `now_ms`: it is due, and it
/// has not been superseded — no handshake has been admitted for its peer
/// since the engine started. A superseded action is discarded in silence.
pub open spec fn action_fires(
    action: ScheduledAction,
    now_ms: u64,
    admitted: Seq<SocketAddress>,
) -> bool {
    is_due(action, now_ms) && !admitted.contains(action.peer)
}

/// The actions of `pending`, in order, that fire at `now_ms` given the
/// peers in `admitted`: due and not superseded.
pub open spec fn fired_actions(
    pending: Seq<ScheduledAction>,
    now_ms: u64,
    admitted: Seq<SocketAddress>,
) -> Seq<ScheduledAction>
    decreases pending.len(),
{
    if pending.len() == 0 {
        Seq::empty()
    } else {
        let rest = fired_actions(pending.drop_last(), now_ms, admitted);
        if action_fires(pending.last(), now_ms, admitted) {
            rest.push(pending.last())
        } else {
            rest
        }
    }
}

/// The actions of `pending`, in order, that are not yet due at `now_ms` and
/// therefore stay in the timer queue.
pub open spec fn kept_actions(pending: Seq<ScheduledAction>, now_ms: u64) -> Seq<ScheduledAction>
    decreases pending.len(),
{
    if pending.len() == 0 {
        Seq::empty()
    } else {
        let rest = kept_actions(pending.drop_last(), now_ms);
        if !is_due(pending.last(), now_ms) {
            rest.push(pending.last())
        } else {
            rest
        }
    }
}

/// The admission engine of one listening endpoint.
///
/// It owns the single piece of shared mutable state of the subsystem — the
/// authoritative in-flight handshake counter — together with the policy
/// instance and the queue of delayed signals. Per attempt it reads the
/// counter, builds a descriptor, asks the policy exactly once, and applies
/// the outcome; the caller performs the outward effects (begin the
/// handshake on Allow, send the signals that `poll_due` hands back).
pub struct AdmissionEngine<L: Limits> {
    /// The pluggable admission policy, asked once per attempt.
    pub policy: L,
    /// Handshakes admitted but not yet finished, as counted by this engine.
    pub inflight: usize,
    /// Delayed retry/close signals that have not fired yet.
    pub pending: Vec<ScheduledAction>,
    /// Peers for which a handshake has been admitted since the engine
    /// started. A delayed action addressed to such a peer is superseded:
    /// when it comes due it is discarded instead of fired.
    pub admitted: Vec<SocketAddress>,
}

impl<L: Limits> AdmissionEngine<L> {
    /// Builds an engine around `policy` with no load: counter at zero,
    /// nothing scheduled, no peer admitted yet.
    pub fn new(policy: L) -> (engine: Self)
        ensures
            engine.policy == policy,
            engine.inflight == 0,
            engine.pending@ == Seq::<ScheduledAction>::empty(),
            engine.admitted@ == Seq::<SocketAddress>::empty(),
    {
        AdmissionEngine { policy, inflight: 0, pending: Vec::new(), admitted: Vec::new() }
    }

    /// Decides one inbound connection attempt at engine time `now_ms` and
    /// applies the decision.
    ///
    /// The outcome is exactly the policy's decision on the descriptor built
    /// from the counter as it stood at the call and the peer's address.
    /// Applying it:
    /// - Allow admits a handshake: the counter goes up by one (saturating
    ///   at the machine limit) and the peer is recorded as admitted, so any
    ///   delayed signal still waiting for it is superseded; the caller now
    ///   hands the attempt to the handshake layer.
    /// - Retry and Close schedule the matching delayed signal for the peer
    ///   at `now_ms + delay`, and create no handshake state.
    /// - Drop changes nothing and leaves no trace.
    pub fn handle_attempt(&mut self, now_ms: u64, source_address: &SocketAddress) -> (outcome:
        Outcome)
        ensures
            outcome == old(self).policy.decide_spec(
                attempt_of(old(self).inflight, source_address),
            ),
            final(self).policy == old(self).policy.next_spec(
                attempt_of(old(self).inflight, source_address),
            ),
            outcome == Outcome::Allow ==> {
                &&& final(self).inflight as int == inc_sat(old(self).inflight as int)
                &&& final(self).admitted@ == old(self).admitted@.push(*source_address)
                &&& final(self).pending@ == old(self).pending@
            },
            outcome matches Outcome::Retry { delay } ==> {
                &&& final(self).inflight == old(self).inflight
                &&& final(self).admitted@ == old(self).admitted@
                &&& final(self).pending@ == old(self).pending@.push(
                    (ScheduledAction {
                        kind: SignalKind::Challenge,
                        due_ms: due_time(now_ms, delay),
                        peer: *source_address,
                    }),
                )
            },
            outcome == Outcome::Drop ==> {
                &&& final(self).inflight == old(self).inflight
                &&& final(self).admitted@ == old(self).admitted@
                &&& final(self).pending@ == old(self).pending@
            },
            outcome matches Outcome::Close { delay } ==> {
                &&& final(self).inflight == old(self).inflight
                &&& final(self).admitted@ == old(self).admitted@
                &&& final(self).pending@ == old(self).pending@.push(
                    (ScheduledAction {
                        kind: SignalKind::Termination,
                        due_ms: due_time(now_ms, delay),
                        peer: *source_address,
                    }),
                )
            },
    {
        let attempt = ConnectionAttempt::new(self.inflight, source_address);
        let outcome = self.policy.on_connection_attempt(&attempt);
        match outcome {
            Outcome::Allow => {
                if self.inflight < usize::MAX {
                    self.inflight = self.inflight + 1;
                }
                self.admitted.push(*source_address);
            },
            Outcome::Retry { delay } => {
                let action = ScheduledAction {
                    kind: SignalKind::Challenge,
                    due_ms: saturating_add_u64(now_ms, delay.millis),
                    peer: *source_address,
                };
                self.pending.push(action);
            },
            Outcome::Drop => {},
            Outcome::Close { delay } => {
                let action = ScheduledAction {
                    kind: SignalKind::Termination,
                    due_ms: saturating_add_u64(now_ms, delay.millis),
                    peer: *source_address,
                };
                self.pending.push(action);
            },
        }
        outcome
    }

    /// Records that one admitted handshake has finished — completed,
    /// failed, or timed out — and releases its slot: the counter goes down
    /// by one. A decrement that would underflow saturates at zero instead
    /// of crashing the endpoint; the returned flag surfaces that
    /// invariant violation as an observability event.
    pub fn on_handshake_finished(&mut self) -> (underflow: bool)
        ensures
            final(self).inflight as int == dec_sat(old(self).inflight as int),
            underflow == (old(self).inflight == 0),
            final(self).policy == old(self).policy,
            final(self).pending@ == old(self).pending@,
            final(self).admitted@ == old(self).admitted@,
    {
        if self.inflight > 0 {
            self.inflight = self.inflight - 1;
            false
        } else {
            true
        }
    }

    /// Removes every action that is due at engine time `now_ms` from the
    /// timer queue and returns, in scheduling order, the ones that still
    /// have to be carried out. A due action whose peer has since been
    /// admitted is superseded: it is removed but not returned — it fires
    /// into nothing, by design and not as an error. The caller emits the
    /// returned signals; actions not yet due stay queued.
    pub fn poll_due(&mut self, now_ms: u64) -> (fired: Vec<ScheduledAction>)
        ensures
            fired@ == fired_actions(old(self).pending@, now_ms, old(self).admitted@),
            final(self).pending@ == kept_actions(old(self).pending@, now_ms),
            final(self).policy == old(self).policy,
            final(self).inflight == old(self).inflight,
            final(self).admitted@ == old(self).admitted@,
    {
        let mut fired: Vec<ScheduledAction> = Vec::new();
        let mut kept: Vec<ScheduledAction> = Vec::new();
        let n = self.pending.len();
        let mut i: usize = 0;
        while i < n
            invariant
                i <= n,
                n == self.pending.len(),
                *self == *old(self),
                fired@ == fired_actions(
                    self.pending@.subrange(0, i as int),
                    now_ms,
                    self.admitted@,
                ),
                kept@ == kept_actions(self.pending@.subrange(0, i as int), now_ms),
            decreases n - i,
        {
            let action = self.pending[i];
            proof {
                assert(self.pending@.subrange(0, i + 1).drop_last() =~= self.pending@.subrange(
                    0,
                    i as int,
                ));
                assert(self.pending@.subrange(0, i + 1).last() == action);
            }
            if action.due_ms <= now_ms {
                if !contains_address(&self.admitted, &action.peer) {
                    fired.push(action);
                }
            } else {
                kept.push(action);
            }
            i = i + 1;
        }
        proof {
            assert(self.pending@.subrange(0, n as int) =~= self.pending@);
        }
        self.pending = kept;
        fired
    }
}

/// `a + b` on the engine clock, saturating at the top of the range.
fn saturating_add_u64(a: u64, b: u64) -> (sum: u64)
    ensures
        sum as int == if a + b <= u64::MAX {
            a + b
        } else {
            u64::MAX as int
        },
{
    if a <= u64::MAX - b {
        a + b
    } else {
        u64::MAX
    }
}

/// Whether `addresses` holds `address`, by field-for-field equality.
fn contains_address(addresses: &Vec<SocketAddress>, address: &SocketAddress) -> (found: bool)
    ensures
        found == addresses@.contains(*address),
{
    let n = addresses.len();
    let mut i: usize = 0;
    while i < n
        invariant
            i <= n,
            n == addresses.len(),
            forall|j: int| 0 <= j < i ==> addresses@[j] != *address,
        decreases n - i,
    {
        if addresses[i] == *address {
            return true;
        }
        i = i + 1;
    }
    false
}

/// Counter-conservation law: from any counter value, admitting `n`
/// handshakes and then seeing all `n` of them finish brings the counter
/// back to where it started, as long as the `n` admissions stay within the
/// counter's range (at the machine limit the counter saturates and the
/// balance is lost).
pub proof fn lemma_counter_conservation(count: int, n: nat)
    requires
        0 <= count,
        count + n <= usize::MAX,
    ensures
        dec_n(inc_n(count, n), n) == count,
    decreases n,
{
    if n > 0 {
        lemma_inc_n_in_range(count, n);
        lemma_dec_n_in_range(count + n, n);
    }
}

/// While it stays in range, `n` admissions add exactly `n` to the counter.
proof fn lemma_inc_n_in_range(count: int, n: nat)
    requires
        0 <= count,
        count + n <= usize::MAX,
    ensures
        inc_n(count, n) == count + n,
    decreases n,
{
    if n > 0 {
        lemma_inc_n_in_range(count, (n - 1) as nat);
    }
}

/// While it stays non-negative, `n` completions take exactly `n` off the
/// counter.
proof fn lemma_dec_n_in_range(count: int, n: nat)
    requires
        n <= count,
    ensures
        dec_n(count, n) == count - n,
    decreases n,
{
    if n > 0 {
        lemma_dec_n_in_range(count, (n - 1) as nat);
    }
}

/// Superseded-action discard law: an action addressed to a peer that has
/// been admitted never appears among the fired actions, whatever the queue
/// and whatever the time — when it comes due it is discarded in silence.
pub proof fn lemma_superseded_action_discarded(
    pending: Seq<ScheduledAction>,
    now_ms: u64,
    admitted: Seq<SocketAddress>,
    action: ScheduledAction,
)
    requires
        admitted.contains(action.peer),
    ensures
        !fired_actions(pending, now_ms, admitted).contains(action),
    decreases pending.len(),
{
    if pending.len() > 0 {
        lemma_superseded_action_discarded(pending.drop_last(), now_ms, admitted, action);
        let rest = fired_actions(pending.drop_last(), now_ms, admitted);
        if action_fires(pending.last(), now_ms, admitted) {
            assert(pending.last() != action);
            assert(forall|j: int|
                0 <= j < rest.push(pending.last()).len() ==> rest.push(pending.last())[j]
                    != action);
        }
    }
}

} // verus!
