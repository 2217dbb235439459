//! What holds of the keep-alive task over whole sequences of events: the
//! expiry signal fires at most once, a lease ends in exactly one way, a release
//! revokes, and renewals in time keep the lease for ever.

use vstd::prelude::*;
use crate::lease::{
    half_ttl, half_ttl_nanos, lease_step, lemma_half_ttl, LeaseAction, LeaseEvent, LeasePhase,
    LeaseState, NANOS_PER_SECOND,
};

verus! {

/// The state of the task after all of `events` arrived, in order, in state `s`.
pub open spec fn lease_run(s: LeaseState, events: Seq<LeaseEvent>) -> LeaseState
    decreases events.len(),
{
    if events.len() == 0 {
        s
    } else {
        lease_step(lease_run(s, events.drop_last()), events.last()).0
    }
}

/// The actions the task asked for while `events` arrived in state `s`, one per
/// event.
pub open spec fn lease_actions(s: LeaseState, events: Seq<LeaseEvent>) -> Seq<LeaseAction>
    decreases events.len(),
{
    if events.len() == 0 {
        Seq::empty()
    } else {
        lease_actions(s, events.drop_last()).push(
            lease_step(lease_run(s, events.drop_last()), events.last()).1,
        )
    }
}

/// How often `actions` fires the expiry signal.
pub open spec fn expiry_signals(actions: Seq<LeaseAction>) -> nat
    decreases actions.len(),
{
    if actions.len() == 0 {
        0
    } else {
        expiry_signals(actions.drop_last()) + if actions.last() is SignalExpiry {
            1nat
        } else {
            0nat
        }
    }
}

/// How many of `actions` end the task: the expiry signal, the end after a
/// cancellation, or a failed acquisition.
pub open spec fn endings(actions: Seq<LeaseAction>) -> nat
    decreases actions.len(),
{
    if actions.len() == 0 {
        0
    } else {
        endings(actions.drop_last()) + if actions.last() is SignalExpiry || actions.last() is Finish
            || actions.last() is Fail {
            1nat
        } else {
            0nat
        }
    }
}

/// How many renewals `actions` sends.
pub open spec fn renewals_sent(actions: Seq<LeaseAction>) -> nat
    decreases actions.len(),
{
    if actions.len() == 0 {
        0
    } else {
        renewals_sent(actions.drop_last()) + if actions.last() is KeepAlive {
            1nat
        } else {
            0nat
        }
    }
}

/// The events of `ttls.len()` renewal rounds in a row: each time the timer runs
/// out and the service answers the renewal with the next of `ttls`.
pub open spec fn renewal_rounds(ttls: Seq<i64>) -> Seq<LeaseEvent>
    decreases ttls.len(),
{
    if ttls.len() == 0 {
        Seq::empty()
    } else {
        renewal_rounds(ttls.drop_last()).push(LeaseEvent::TimerFired).push(
            LeaseEvent::Renewed { ttl: ttls.last() },
        )
    }
}

/// A transition keeps a well-formed state well formed.
pub proof fn lemma_step_wf(s: LeaseState, event: LeaseEvent)
    requires
        s.wf(),
    ensures
        lease_step(s, event).0.wf(),
{
}

/// A lease keeps its identifier. Whatever arrives, a well-formed state stays
/// well formed, and the identifier of a lease never changes once it was issued.
pub proof fn law_lease_keeps_its_identifier(s: LeaseState, events: Seq<LeaseEvent>)
    requires
        s.wf(),
    ensures
        lease_run(s, events).wf(),
        s.id is Some ==> lease_run(s, events).id == s.id,
    decreases events.len(),
{
    if events.len() > 0 {
        law_lease_keeps_its_identifier(s, events.drop_last());
        lemma_step_wf(lease_run(s, events.drop_last()), events.last());
    }
}

/// Terminal states are final: whatever arrives, the state stays as it is and
/// nothing is asked for.
pub proof fn law_terminal_is_final(s: LeaseState, events: Seq<LeaseEvent>)
    requires
        s.terminal(),
    ensures
        lease_run(s, events) == s,
        forall|i: int|
            0 <= i < events.len() ==> #[trigger] lease_actions(s, events)[i] == LeaseAction::Ignore,
        lease_actions(s, events).len() == events.len(),
    decreases events.len(),
{
    if events.len() > 0 {
        law_terminal_is_final(s, events.drop_last());
    }
}

/// The expiry signal fires at most once over the whole life of a lease, and
/// it fires exactly when the lease comes to its end as expired.
pub proof fn law_expiry_fires_once(s: LeaseState, events: Seq<LeaseEvent>)
    ensures
        expiry_signals(lease_actions(s, events)) <= 1,
        expiry_signals(lease_actions(s, events)) == 1 <==> (lease_run(s, events).phase
            == LeasePhase::Expired && s.phase != LeasePhase::Expired),
    decreases events.len(),
{
    if events.len() > 0 {
        law_expiry_fires_once(s, events.drop_last());
        if s.phase == LeasePhase::Expired {
            law_terminal_is_final(s, events.drop_last());
        }
        assert(lease_actions(s, events).drop_last() == lease_actions(s, events.drop_last()));
    }
}

/// A lease ends in exactly one way: of the expiry signal, the end after a
/// cancellation and the failure of the acquisition, at most one ever happens,
/// and one has happened exactly when the task is over.
pub proof fn law_one_ending(s: LeaseState, events: Seq<LeaseEvent>)
    requires
        !s.terminal(),
    ensures
        endings(lease_actions(s, events)) <= 1,
        endings(lease_actions(s, events)) == 1 <==> lease_run(s, events).terminal(),
    decreases events.len(),
{
    if events.len() > 0 {
        law_one_ending(s, events.drop_last());
        assert(lease_actions(s, events).drop_last() == lease_actions(s, events.drop_last()));
    }
}

/// When the answer to a renewal shows the lease gone (a TTL that is not
/// positive, a failed renewal, or a closed stream), the expiry signal fires at
/// once, and whatever arrives afterwards it never fires again.
pub proof fn law_expiry_on_lost_lease(s: LeaseState, answer: LeaseEvent, later: Seq<LeaseEvent>)
    requires
        s.phase == LeasePhase::Renewing,
        answer is RenewFailed || answer is StreamClosed || (answer matches LeaseEvent::Renewed {
            ttl,
        } && ttl <= 0),
    ensures
        lease_step(s, answer).1 == LeaseAction::SignalExpiry,
        lease_step(s, answer).0.phase == LeasePhase::Expired,
        expiry_signals(lease_actions(lease_step(s, answer).0, later)) == 0,
        lease_run(lease_step(s, answer).0, later) == lease_step(s, answer).0,
{
    let expired = lease_step(s, answer).0;
    law_expiry_fires_once(expired, later);
    law_terminal_is_final(expired, later);
}

/// Whether one of `events` is the answer to a revoke, good or bad.
pub open spec fn revoke_answered(events: Seq<LeaseEvent>) -> bool {
    exists|i: int| 0 <= i < events.len() && (events[i] is Revoked || events[i] is RevokeFailed)
}

/// Once a cancellation was accepted, the task is revoking or over as
/// cancelled, and it is over as soon as one answer to the revoke arrived.
pub proof fn lemma_after_cancel(s: LeaseState, events: Seq<LeaseEvent>)
    requires
        s.phase == LeasePhase::Revoking || s.phase == LeasePhase::Cancelled,
    ensures
        lease_run(s, events).phase == LeasePhase::Revoking || lease_run(s, events).phase
            == LeasePhase::Cancelled,
        revoke_answered(events) ==> lease_run(s, events).phase == LeasePhase::Cancelled,
    decreases events.len(),
{
    if events.len() > 0 {
        let before = events.drop_last();
        lemma_after_cancel(s, before);
        if revoke_answered(events) {
            let i = choose|i: int|
                0 <= i < events.len() && (events[i] is Revoked || events[i] is RevokeFailed);
            if i < before.len() {
                assert(before[i] is Revoked || before[i] is RevokeFailed);
            }
        }
    }
}

/// Releasing a lease that was issued revokes it: the cancellation is answered
/// at once with the revoke of that very lease, and whatever arrives afterwards
/// the expiry signal is never fired. The task is over when the revoke is
/// answered, whether it succeeded or not.
pub proof fn law_release_revokes(s: LeaseState, later: Seq<LeaseEvent>)
    requires
        s.wf(),
        s.phase == LeasePhase::OpeningStream || s.running(),
    ensures
        ({
            let (revoking, action) = lease_step(s, LeaseEvent::CancelRequested);
            let end = lease_run(revoking, later).phase;
            &&& s.id matches Some(id)
            &&& action == LeaseAction::Revoke { id }
            &&& revoking.phase == LeasePhase::Revoking
            &&& expiry_signals(lease_actions(revoking, later)) == 0
            &&& end == LeasePhase::Revoking || end == LeasePhase::Cancelled
            &&& revoke_answered(later) ==> end == LeasePhase::Cancelled
        }),
{
    let revoking = lease_step(s, LeaseEvent::CancelRequested).0;
    lemma_after_cancel(revoking, later);
    law_expiry_fires_once(revoking, later);
}

/// Renewals are sequential. A renewal is sent only when the timer of a
/// sleeping task fires, and the task then waits for the answer; while it waits,
/// nothing makes it send another.
pub proof fn law_renewals_are_sequential(s: LeaseState, event: LeaseEvent)
    ensures
        lease_step(s, event).1 is KeepAlive ==> s.phase == LeasePhase::Sleeping
            && event is TimerFired && lease_step(s, event).0.phase == LeasePhase::Renewing,
        s.phase == LeasePhase::Renewing ==> !(lease_step(s, event).1 is KeepAlive),
{
}

/// A lost lease is noticed on the next renewal. When the timer of a sleeping
/// task fires, which is half a TTL after it was started at the latest, the
/// task sends a renewal; and an answer that shows the lease gone fires the
/// expiry signal and ends the task.
pub proof fn law_lost_lease_is_noticed(s: LeaseState, answer: LeaseEvent)
    requires
        s.wf(),
        s.phase == LeasePhase::Sleeping,
        answer is RenewFailed || answer is StreamClosed || (answer matches LeaseEvent::Renewed {
            ttl,
        } && ttl <= 0),
    ensures
        ({
            let events = seq![LeaseEvent::TimerFired, answer];
            &&& s.id matches Some(id)
            &&& lease_actions(s, events) == seq![
                LeaseAction::KeepAlive { id },
                LeaseAction::SignalExpiry,
            ]
            &&& lease_run(s, events).phase == LeasePhase::Expired
        }),
{
    let events = seq![LeaseEvent::TimerFired, answer];
    let woken = seq![LeaseEvent::TimerFired];
    let nothing = woken.drop_last();
    assert(events.drop_last() == woken);
    assert(lease_run(s, nothing) == s);
    assert(lease_actions(s, nothing) == Seq::<LeaseAction>::empty());
    assert(lease_actions(s, events) == lease_actions(s, woken).push(
        lease_step(lease_run(s, woken), answer).1,
    ));
}

/// Renewal liveness. A lease that is held, and whose every renewal the
/// service answers with a positive TTL, is held for ever: after any number of
/// rounds the task sleeps again with the latest TTL, it has sent one renewal
/// per round, and the expiry signal has not fired.
pub proof fn law_renewal_keeps_lease(s: LeaseState, ttls: Seq<i64>)
    requires
        s.wf(),
        s.phase == LeasePhase::Sleeping,
        forall|i: int| 0 <= i < ttls.len() ==> ttls[i] > 0,
    ensures
        lease_run(s, renewal_rounds(ttls)) == (LeaseState {
            ttl: if ttls.len() == 0 {
                s.ttl
            } else {
                ttls.last()
            },
            ..s
        }),
        renewals_sent(lease_actions(s, renewal_rounds(ttls))) == ttls.len(),
        expiry_signals(lease_actions(s, renewal_rounds(ttls))) == 0,
        ttls.len() > 0 ==> lease_actions(s, renewal_rounds(ttls)).last() == (LeaseAction::Sleep {
            interval: half_ttl(ttls.last()),
        }),
    decreases ttls.len(),
{
    if ttls.len() > 0 {
        let before = ttls.drop_last();
        law_renewal_keeps_lease(s, before);
        let woken = renewal_rounds(before).push(LeaseEvent::TimerFired);
        let events = renewal_rounds(ttls);
        assert(events.drop_last() == woken);
        assert(woken.drop_last() == renewal_rounds(before));
        let sent = lease_actions(s, woken);
        let answered = lease_actions(s, events);
        assert(sent.drop_last() == lease_actions(s, renewal_rounds(before)));
        assert(answered.drop_last() == sent);
        assert(renewals_sent(sent) == before.len() + 1);
        assert(expiry_signals(sent) == 0);
    }
}

/// The clock of one lease, in nanoseconds since the lease was granted.
pub struct Timeline {
    /// The instant the latest renewal reached the service, or the instant of
    /// the grant.
    pub now: int,
    /// The instant at which the service lets the lease lapse, unless a renewal
    /// reaches it before.
    pub deadline: int,
}

impl Timeline {
    /// A lease of `ttl` seconds at the instant of its grant.
    pub open spec fn granted(ttl: i64) -> Timeline {
        Timeline { now: 0, deadline: ttl * NANOS_PER_SECOND }
    }

    /// Whether the service still lists the lease.
    pub open spec fn alive(self) -> bool {
        self.now < self.deadline
    }

    /// The clock after one more renewal round of a lease of `ttl` seconds: the
    /// task sleeps for half the TTL, and the renewal takes `latency_nanos` to
    /// reach the service, which gives a lease it still lists `ttl` more seconds
    /// from then.
    pub open spec fn renewed(self, ttl: i64, latency_nanos: int) -> Timeline {
        let arrival = self.now + half_ttl(ttl).total_nanos() + latency_nanos;
        Timeline {
            now: arrival,
            deadline: if arrival < self.deadline {
                arrival + ttl * NANOS_PER_SECOND
            } else {
                self.deadline
            },
        }
    }
}

/// The clock of a lease of `ttl` seconds after one renewal round for each of
/// `latencies`.
pub open spec fn timeline(ttl: i64, latencies: Seq<int>) -> Timeline
    decreases latencies.len(),
{
    if latencies.len() == 0 {
        Timeline::granted(ttl)
    } else {
        timeline(ttl, latencies.drop_last()).renewed(ttl, latencies.last())
    }
}

/// The renewal schedule outpaces expiry. Take a lease of any positive TTL
/// whose renewals each reach the service in less than half a TTL. Then every
/// renewal arrives while the service still lists the lease, so the lease is
/// alive after any number of rounds, with a full TTL ahead of it after each
/// renewal. Each round takes less than one TTL: a renewal that arrives later
/// than twice the TTL after the grant is the third at least.
pub proof fn law_renewal_outpaces_expiry(ttl: i64, latencies: Seq<int>)
    requires
        ttl > 0,
        forall|i: int|
            0 <= i < latencies.len() ==> 0 <= #[trigger] latencies[i] < half_ttl_nanos(ttl as int),
    ensures
        timeline(ttl, latencies).alive(),
        timeline(ttl, latencies).deadline == timeline(ttl, latencies).now + ttl * NANOS_PER_SECOND,
        timeline(ttl, latencies).now <= latencies.len() * (ttl * NANOS_PER_SECOND),
        timeline(ttl, latencies).now > 2 * (ttl * NANOS_PER_SECOND) ==> latencies.len() >= 3,
    decreases latencies.len(),
{
    lemma_half_ttl(ttl);
    let lifetime = ttl * NANOS_PER_SECOND;
    let rounds = latencies.len() as int;
    if latencies.len() > 0 {
        law_renewal_outpaces_expiry(ttl, latencies.drop_last());
        assert(rounds * lifetime == (rounds - 1) * lifetime + lifetime) by (nonlinear_arith);
    }
    if rounds <= 2 {
        assert(rounds * lifetime <= 2 * lifetime) by (nonlinear_arith)
            requires
                0 <= rounds <= 2,
                lifetime > 0,
        ;
    }
}

} // verus!
