//! What holds of the campaign loop over whole sequences of events: observers
//! read the latest publication, publications alternate between `Leader` and
//! `Follower`, and a released handle ends everything.

use vstd::prelude::*;
use crate::error::LeaseError;
use crate::leader::{
    backoff_delay, leadership_step, LeadershipCommand, LeadershipEvent, LeadershipPhase,
    LeadershipState, LeadershipStatus, LeadershipStep, DEFAULT_LEASE_TTL,
};

verus! {

/// The state of the loop after all of `events` arrived, in order, in state `s`.
pub open spec fn leadership_run(s: LeadershipState, events: Seq<LeadershipEvent>) -> LeadershipState
    decreases events.len(),
{
    if events.len() == 0 {
        s
    } else {
        leadership_step(leadership_run(s, events.drop_last()), events.last()).0
    }
}

/// The steps the loop asked for while `events` arrived in state `s`, one per
/// event.
pub open spec fn leadership_steps(s: LeadershipState, events: Seq<LeadershipEvent>) -> Seq<
    LeadershipStep,
>
    decreases events.len(),
{
    if events.len() == 0 {
        Seq::empty()
    } else {
        leadership_steps(s, events.drop_last()).push(
            leadership_step(leadership_run(s, events.drop_last()), events.last()).1,
        )
    }
}

/// The statuses that `steps` publish, in order.
pub open spec fn publications(steps: Seq<LeadershipStep>) -> Seq<LeadershipStatus>
    decreases steps.len(),
{
    if steps.len() == 0 {
        Seq::empty()
    } else {
        match steps.last().publish {
            Some(status) => publications(steps.drop_last()).push(status),
            None => publications(steps.drop_last()),
        }
    }
}

/// The status an observer reads after `published` was published on top of
/// `first`: the latest value, whatever came before it.
pub open spec fn latest(first: LeadershipStatus, published: Seq<LeadershipStatus>)
    -> LeadershipStatus {
    if published.len() == 0 {
        first
    } else {
        published.last()
    }
}

/// The events of `errors.len()` failed attempts in a row: each time no lease
/// can be acquired, for the next of `errors`, and the retry delay runs out.
pub open spec fn failed_attempts(errors: Seq<LeaseError>) -> Seq<LeadershipEvent>
    decreases errors.len(),
{
    if errors.len() == 0 {
        Seq::empty()
    } else {
        failed_attempts(errors.drop_last()).push(LeadershipEvent::LeaseFailed(errors.last())).push(
            LeadershipEvent::BackoffElapsed,
        )
    }
}

/// The failure count after `more` further failures on top of `failures`; it
/// stops counting at the largest number it can hold.
pub open spec fn failures_after(failures: u32, more: nat) -> u32 {
    if failures + more <= u32::MAX {
        (failures + more) as u32
    } else {
        u32::MAX
    }
}

/// A transition keeps a well-formed state well formed.
pub proof fn lemma_leadership_step_wf(s: LeadershipState, event: LeadershipEvent)
    requires
        s.wf(),
    ensures
        leadership_step(s, event).0.wf(),
{
}

/// Every sequence of events keeps a well-formed state well formed.
pub proof fn lemma_leadership_run_wf(s: LeadershipState, events: Seq<LeadershipEvent>)
    requires
        s.wf(),
    ensures
        leadership_run(s, events).wf(),
    decreases events.len(),
{
    if events.len() > 0 {
        lemma_leadership_run_wf(s, events.drop_last());
        lemma_leadership_step_wf(leadership_run(s, events.drop_last()), events.last());
    }
}

/// Observers read the latest value: the status in the loop's state is always
/// the one published last, or the one it started with if nothing was published.
pub proof fn law_status_is_latest(s: LeadershipState, events: Seq<LeadershipEvent>)
    ensures
        leadership_run(s, events).status == latest(
            s.status,
            publications(leadership_steps(s, events)),
        ),
    decreases events.len(),
{
    if events.len() > 0 {
        law_status_is_latest(s, events.drop_last());
        assert(leadership_steps(s, events).drop_last() == leadership_steps(s, events.drop_last()));
    }
}

/// Publications alternate. Each published status differs from the one before
/// it in whether it shows the role as held, the first one differs in that from
/// the status the loop started with, and a status that shows the role as not
/// held is `Follower`. So observers see `Candidate`, `Leader`, `Follower`,
/// `Leader`, `Follower`, and so on.
pub proof fn law_publications_alternate(s: LeadershipState, events: Seq<LeadershipEvent>)
    requires
        s.wf(),
    ensures
        ({
            let published = publications(leadership_steps(s, events));
            &&& forall|i: int|
                0 <= i < published.len() ==> (#[trigger] published[i]).leading() != latest(
                    s.status,
                    published.take(i),
                ).leading()
            &&& forall|i: int|
                0 <= i < published.len() ==> (#[trigger] published[i]).leading() || published[i]
                    == LeadershipStatus::Follower
        }),
    decreases events.len(),
{
    if events.len() > 0 {
        let before = events.drop_last();
        law_publications_alternate(s, before);
        law_status_is_latest(s, before);
        lemma_leadership_run_wf(s, before);
        assert(leadership_steps(s, events).drop_last() == leadership_steps(s, before));
        let earlier = publications(leadership_steps(s, before));
        let published = publications(leadership_steps(s, events));
        assert forall|i: int| 0 <= i < published.len() implies (#[trigger] published[i]).leading()
            != latest(s.status, published.take(i)).leading() by {
            if i < earlier.len() {
                assert(published.take(i) == earlier.take(i));
            } else {
                assert(published.take(i) == earlier);
            }
        }
    }
}

/// Failures are retried, however many. A loop that cannot get a lease waits
/// and tries again, every time: after any number of failed attempts it is
/// acquiring once more, with every failure counted and nothing published. The
/// last failure was answered with the retry delay that belongs to the count,
/// and the end of that delay with the next acquisition.
pub proof fn law_failures_are_retried(s: LeadershipState, errors: Seq<LeaseError>)
    requires
        s.wf(),
        s.phase == LeadershipPhase::Acquiring,
    ensures
        ({
            let events = failed_attempts(errors);
            let steps = leadership_steps(s, events);
            let failures = failures_after(s.failures, errors.len());
            &&& leadership_run(s, events) == (LeadershipState { failures, ..s })
            &&& steps.len() == 2 * errors.len()
            &&& publications(steps).len() == 0
            &&& errors.len() > 0 ==> steps[steps.len() - 2] == LeadershipStep::only(
                LeadershipCommand::Backoff { millis: backoff_delay(failures as nat) as u64 },
            )
            &&& errors.len() > 0 ==> steps[steps.len() - 1] == LeadershipStep::only(
                LeadershipCommand::AcquireLease { ttl: DEFAULT_LEASE_TTL },
            )
        }),
    decreases errors.len(),
{
    if errors.len() > 0 {
        let before = errors.drop_last();
        law_failures_are_retried(s, before);
        let failed = failed_attempts(before).push(LeadershipEvent::LeaseFailed(errors.last()));
        let events = failed_attempts(errors);
        assert(events.drop_last() == failed);
        assert(failed.drop_last() == failed_attempts(before));
        let waiting = leadership_steps(s, failed);
        let retried = leadership_steps(s, events);
        assert(waiting.drop_last() == leadership_steps(s, failed_attempts(before)));
        assert(retried.drop_last() == waiting);
        assert(publications(waiting).len() == 0);
    }
}

/// One lease and one campaign at a time. The loop asks for a lease only while
/// it holds none, starts a campaign only with the lease it has just acquired
/// and never while one is in flight, and hands back no lease but the one in
/// its hand, which it then holds no more.
pub proof fn law_one_lease_one_campaign(s: LeadershipState, event: LeadershipEvent)
    requires
        s.wf(),
    ensures
        ({
            let (next, step) = leadership_step(s, event);
            &&& step.command is AcquireLease ==> next.phase == LeadershipPhase::Acquiring
                && next.lease_id is None
            &&& step.command is Campaign ==> s.phase == LeadershipPhase::Acquiring && s.lease_id is None
                && next.phase == LeadershipPhase::Campaigning
            &&& forall|lease_id: i64|
                step.command == (LeadershipCommand::Campaign { lease_id }) ==> next.lease_id == Some(
                    lease_id,
                )
            &&& s.phase == LeadershipPhase::Campaigning ==> !(step.command is Campaign)
            &&& step.release is Some ==> step.release == s.lease_id && next.lease_id is None
        }),
{
}

/// A released handle ends the loop for good: the release is answered by
/// handing back the lease in hand and by nothing else, and whatever arrives
/// afterwards the loop publishes nothing and asks for nothing.
pub proof fn law_release_stops(s: LeadershipState, later: Seq<LeadershipEvent>)
    requires
        s.phase != LeadershipPhase::Stopped,
    ensures
        ({
            let (stopped, step) = leadership_step(s, LeadershipEvent::CancelRequested);
            &&& stopped.phase == LeadershipPhase::Stopped
            &&& stopped.status == s.status
            &&& step == (LeadershipStep {
                publish: None,
                release: s.lease_id,
                command: LeadershipCommand::Halt,
            })
            &&& leadership_run(stopped, later) == stopped
            &&& publications(leadership_steps(stopped, later)).len() == 0
            &&& forall|i: int|
                0 <= i < later.len() ==> #[trigger] leadership_steps(stopped, later)[i]
                    == LeadershipStep::only(LeadershipCommand::Ignore)
        }),
{
    lemma_stopped_is_final(leadership_step(s, LeadershipEvent::CancelRequested).0, later);
}

/// In `Stopped` nothing happens any more.
pub proof fn lemma_stopped_is_final(s: LeadershipState, events: Seq<LeadershipEvent>)
    requires
        s.phase == LeadershipPhase::Stopped,
    ensures
        leadership_run(s, events) == s,
        leadership_steps(s, events).len() == events.len(),
        publications(leadership_steps(s, events)).len() == 0,
        forall|i: int|
            0 <= i < events.len() ==> #[trigger] leadership_steps(s, events)[i]
                == LeadershipStep::only(LeadershipCommand::Ignore),
    decreases events.len(),
{
    if events.len() > 0 {
        lemma_stopped_is_final(s, events.drop_last());
        assert(leadership_steps(s, events).drop_last() == leadership_steps(s, events.drop_last()));
    }
}

} // verus!
