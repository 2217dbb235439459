//! Several instances competing for one role, against a model of what the
//! coordination service promises: lease identifiers are never issued twice,
//! only a live lease can hold the election key, a campaign is won only while
//! nobody holds the key, and a lease that is revoked or lapses gives the key
//! up.
//!
//! The instances move by the transition table of the campaign loop. The
//! invariant proved here is the client's side of leader election: among the
//! instances whose lease is live, at most one shows itself as leader.

use vstd::prelude::*;
use crate::leader::{
    leadership_step, LeadershipCommand, LeadershipEvent, LeadershipPhase, LeadershipState,
    LeadershipStatus, LeadershipStep,
};
use crate::lease::{lease_step, LeaseAction, LeaseEvent, LeasePhase, LeaseState};

verus! {

/// What the coordination service knows about leases and the election key.
pub struct Service {
    /// Every lease identifier ever issued.
    pub issued: Set<i64>,
    /// The leases that are live now.
    pub live: Set<i64>,
    /// Every lease that ever won a campaign.
    pub elected: Set<i64>,
    /// The lease that holds the election key of the role, if any does.
    pub holder: Option<i64>,
}

/// The service and the instances that compete for the role.
pub struct Election {
    pub service: Service,
    pub candidates: Seq<LeadershipState>,
}

/// One thing that happens in an election.
pub enum Happening {
    /// The campaign loop of instance `who` is told `event`.
    Told { who: int, event: LeadershipEvent },
    /// A lease is gone at the service: revoked by its keep-alive task, revoked
    /// by someone else, or lapsed.
    LeaseGone { lease_id: i64 },
}

impl Service {
    /// A service that has issued nothing.
    pub open spec fn fresh() -> Service {
        Service { issued: Set::empty(), live: Set::empty(), elected: Set::empty(), holder: None }
    }

    /// Live leases and leases that won were issued, and the key is held by a
    /// live lease only.
    pub open spec fn wf(self) -> bool {
        &&& self.live.subset_of(self.issued)
        &&& self.elected.subset_of(self.issued)
        &&& self.holder matches Some(id) ==> self.live.contains(id)
    }

    /// If the campaign loop `candidate` campaigns, it does so with a lease
    /// that has not won before.
    pub open spec fn awaits(self, candidate: LeadershipState) -> bool {
        candidate.phase == LeadershipPhase::Campaigning && candidate.lease_id is Some
            ==> !self.elected.contains(candidate.lease_id->0)
    }

    /// The lease that the campaign loop `candidate` holds, if it holds one,
    /// is one this service issued.
    pub open spec fn issued_lease_of(self, candidate: LeadershipState) -> bool {
        candidate.lease_id is Some ==> self.issued.contains(candidate.lease_id->0)
    }

    /// If the campaign loop `candidate` leads with a lease that is live, that
    /// lease holds the key.
    pub open spec fn backs(self, candidate: LeadershipState) -> bool {
        candidate.phase == LeadershipPhase::Leading && candidate.lease_id is Some
            && self.live.contains(candidate.lease_id->0) ==> self.holder == candidate.lease_id
    }

    /// The service after it issued the lease `lease_id`.
    pub open spec fn grant(self, lease_id: i64) -> Service {
        Service {
            issued: self.issued.insert(lease_id),
            live: self.live.insert(lease_id),
            ..self
        }
    }

    /// Whether a campaign with `lease_id` is won now: the lease is live and
    /// nobody holds the key.
    pub open spec fn grants_key_to(self, lease_id: i64) -> bool {
        self.live.contains(lease_id) && self.holder is None
    }

    /// The service after the campaign with `lease_id` was won.
    pub open spec fn elect(self, lease_id: i64) -> Service {
        Service { holder: Some(lease_id), elected: self.elected.insert(lease_id), ..self }
    }

    /// The service after the lease `lease_id` was revoked or lapsed: the lease
    /// is not live any more, and the key is free if that lease held it.
    pub open spec fn drop_lease(self, lease_id: i64) -> Service {
        Service {
            live: self.live.remove(lease_id),
            holder: if self.holder == Some(lease_id) {
                None
            } else {
                self.holder
            },
            ..self
        }
    }
}

impl Election {
    /// `count` instances that have just asked for leadership, and a service
    /// that has issued nothing.
    pub open spec fn start(count: nat) -> Election {
        Election {
            service: Service::fresh(),
            candidates: Seq::new(count, |i: int| LeadershipState::initial()),
        }
    }

    /// Whether `happening` can happen now. A campaign loop is told of a new
    /// lease only while it acquires one, and the lease is new to the service;
    /// it is told of a won campaign only while it campaigns and the service
    /// grants the key to its lease. Everything else can happen at any time.
    pub open spec fn allows(self, happening: Happening) -> bool {
        match happening {
            Happening::Told { who, event } => {
                &&& 0 <= who < self.candidates.len()
                &&& match event {
                    LeadershipEvent::LeaseAcquired { lease_id } => {
                        &&& self.candidates[who].phase == LeadershipPhase::Acquiring
                        &&& !self.service.issued.contains(lease_id)
                    },
                    LeadershipEvent::CampaignWon => {
                        &&& self.candidates[who].phase == LeadershipPhase::Campaigning
                        &&& self.candidates[who].lease_id matches Some(lease_id)
                        &&& self.service.grants_key_to(lease_id)
                    },
                    _ => true,
                }
            },
            Happening::LeaseGone { lease_id } => true,
        }
    }

    /// The election after `happening`.
    pub open spec fn after(self, happening: Happening) -> Election {
        match happening {
            Happening::Told { who, event } => {
                let told = leadership_step(self.candidates[who], event).0;
                Election {
                    service: match event {
                        LeadershipEvent::LeaseAcquired { lease_id } => self.service.grant(lease_id),
                        LeadershipEvent::CampaignWon => match self.candidates[who].lease_id {
                            Some(lease_id) => self.service.elect(lease_id),
                            None => self.service,
                        },
                        _ => self.service,
                    },
                    candidates: self.candidates.update(who, told),
                }
            },
            Happening::LeaseGone { lease_id } => Election {
                service: self.service.drop_lease(lease_id),
                ..self
            },
        }
    }

    /// Whether instance `who` shows itself as leader to its observers, with a
    /// lease that is live at the service.
    pub open spec fn leads(self, who: int) -> bool {
        &&& 0 <= who < self.candidates.len()
        &&& self.candidates[who].phase != LeadershipPhase::Stopped
        &&& self.candidates[who].status matches LeadershipStatus::Leader { lease_id }
        &&& self.service.live.contains(lease_id)
    }

    /// What holds of every election that can come about.
    pub open spec fn inv(self) -> bool {
        &&& self.service.wf()
        &&& forall|i: int| 0 <= i < self.candidates.len() ==> (#[trigger] self.candidates[i]).wf()
        &&& forall|i: int|
            0 <= i < self.candidates.len() ==> self.service.issued_lease_of(
                #[trigger] self.candidates[i],
            )
        &&& forall|i: int, j: int|
            0 <= i < self.candidates.len() && 0 <= j < self.candidates.len() && i != j && (
            #[trigger] self.candidates[i]).lease_id is Some ==> self.candidates[i].lease_id != (
            #[trigger] self.candidates[j]).lease_id
        &&& forall|i: int|
            0 <= i < self.candidates.len() ==> self.service.backs(#[trigger] self.candidates[i])
        &&& forall|i: int|
            0 <= i < self.candidates.len() ==> self.service.awaits(#[trigger] self.candidates[i])
    }
}

/// The election after all of `history` happened, in order, to `begin`.
pub open spec fn election_run(begin: Election, history: Seq<Happening>) -> Election
    decreases history.len(),
{
    if history.len() == 0 {
        begin
    } else {
        election_run(begin, history.drop_last()).after(history.last())
    }
}

/// Whether `history` can happen to `begin`: each happening is allowed at the
/// point where it happens.
pub open spec fn possible(begin: Election, history: Seq<Happening>) -> bool
    decreases history.len(),
{
    history.len() == 0 || (possible(begin, history.drop_last()) && election_run(
        begin,
        history.drop_last(),
    ).allows(history.last()))
}

/// The invariant holds at the start.
pub proof fn lemma_start_inv(count: nat)
    ensures
        Election::start(count).inv(),
{
}

/// Whatever is allowed to happen keeps the invariant.
pub proof fn lemma_after_inv(election: Election, happening: Happening)
    requires
        election.inv(),
        election.allows(happening),
    ensures
        election.after(happening).inv(),
        election.after(happening).candidates.len() == election.candidates.len(),
{
}

/// Every possible history keeps the invariant and the number of instances.
pub proof fn lemma_run_inv(begin: Election, history: Seq<Happening>)
    requires
        begin.inv(),
        possible(begin, history),
    ensures
        election_run(begin, history).inv(),
        election_run(begin, history).candidates.len() == begin.candidates.len(),
    decreases history.len(),
{
    if history.len() > 0 {
        lemma_run_inv(begin, history.drop_last());
        lemma_after_inv(election_run(begin, history.drop_last()), history.last());
    }
}

/// Where the invariant holds, no two instances lead at once.
pub proof fn lemma_inv_single_leader(election: Election, one: int, other: int)
    requires
        election.inv(),
        one != other,
    ensures
        !(election.leads(one) && election.leads(other)),
{
}

/// Single leader. However many instances ask for the leadership of a role, and
/// whatever happens to them and to their leases, at no instant do two of them
/// show themselves as leader with a lease that is live at the service.
pub proof fn law_single_leader(count: nat, history: Seq<Happening>, one: int, other: int)
    requires
        possible(Election::start(count), history),
        one != other,
    ensures
        !(election_run(Election::start(count), history).leads(one) && election_run(
            Election::start(count),
            history,
        ).leads(other)),
{
    lemma_start_inv(count);
    lemma_run_inv(Election::start(count), history);
    lemma_inv_single_leader(election_run(Election::start(count), history), one, other);
}

/// One leader per lease. In every election that can come about, the leases
/// named by the instances that show themselves as leader are all different.
pub proof fn law_one_leader_per_lease(count: nat, history: Seq<Happening>, one: int, other: int)
    requires
        possible(Election::start(count), history),
        one != other,
    ensures
        ({
            let election = election_run(Election::start(count), history);
            0 <= one < count && 0 <= other < count && election.candidates[one].phase
                == LeadershipPhase::Leading && election.candidates[other].phase
                == LeadershipPhase::Leading ==> election.candidates[one].status
                != election.candidates[other].status
        }),
{
    lemma_start_inv(count);
    lemma_run_inv(Election::start(count), history);
}

/// A lease leads once. In every election that can come about, a campaign that
/// is won now is won with a lease that never won before: no two publications
/// of `Leader`, by whatever instances, name the same lease.
pub proof fn law_lease_leads_once(count: nat, history: Seq<Happening>, who: int)
    requires
        possible(Election::start(count), history),
        election_run(Election::start(count), history).allows(
            Happening::Told { who, event: LeadershipEvent::CampaignWon },
        ),
    ensures
        ({
            let election = election_run(Election::start(count), history);
            let won = Happening::Told { who, event: LeadershipEvent::CampaignWon };
            &&& election.candidates[who].lease_id matches Some(lease_id)
            &&& !election.service.elected.contains(lease_id)
            &&& election.after(won).service.elected == election.service.elected.insert(lease_id)
            &&& election.after(won).candidates[who].status == (LeadershipStatus::Leader { lease_id })
        }),
{
    lemma_start_inv(count);
    lemma_run_inv(Election::start(count), history);
}

/// Revoke on release. When the owner of a lease that is kept alive releases
/// it, the keep-alive task asks at once for the revoke of that lease; and once
/// the service has carried the revoke out, it lists the lease no more, and the
/// election key is not held by it.
pub proof fn law_released_lease_disappears(service: Service, task: LeaseState)
    requires
        service.wf(),
        task.wf(),
        task.running(),
    ensures
        ({
            let (revoking, action) = lease_step(task, LeaseEvent::CancelRequested);
            &&& task.id matches Some(id)
            &&& action == LeaseAction::Revoke { id }
            &&& !service.drop_lease(id).live.contains(id)
            &&& service.drop_lease(id).holder != Some(id)
            &&& service.drop_lease(id).wf()
            &&& lease_step(revoking, LeaseEvent::Revoked).0.phase == LeasePhase::Cancelled
        }),
{
}

/// Failover. Let instance `leader` lead with its lease while instance `next`
/// campaigns with a live lease of its own, and let the leader's lease be
/// revoked at the service. Then the key is free and the service grants it to
/// the campaigner, who publishes `Leader` with its own lease and is the one
/// that leads. The former leader's keep-alive task, `task`, fires the expiry
/// signal on the answer to its next renewal, which shows the lease gone; told
/// of that, the former leader publishes `Follower` and acquires a new lease.
pub proof fn law_failover(
    election: Election,
    leader: int,
    next: int,
    task: LeaseState,
    answer: LeaseEvent,
)
    requires
        election.inv(),
        election.leads(leader),
        0 <= next < election.candidates.len(),
        next != leader,
        election.candidates[next].phase == LeadershipPhase::Campaigning,
        election.candidates[next].lease_id matches Some(id) && election.service.live.contains(id),
        task.wf(),
        task.phase == LeasePhase::Renewing,
        task.id == election.candidates[leader].lease_id,
        answer is StreamClosed || answer is RenewFailed || (answer matches LeaseEvent::Renewed {
            ttl,
        } && ttl <= 0),
    ensures
        ({
            let lost = election.candidates[leader].lease_id->0;
            let won = election.candidates[next].lease_id->0;
            let revoked = election.after(Happening::LeaseGone { lease_id: lost });
            let elected = Happening::Told { who: next, event: LeadershipEvent::CampaignWon };
            let expired = Happening::Told { who: leader, event: LeadershipEvent::LeaseExpired };
            &&& !revoked.leads(leader)
            &&& revoked.allows(elected)
            &&& revoked.after(elected).leads(next)
            &&& leadership_step(election.candidates[next], LeadershipEvent::CampaignWon).1.publish
                == Some(LeadershipStatus::Leader { lease_id: won })
            &&& lease_step(task, answer).1 == LeaseAction::SignalExpiry
            &&& leadership_step(election.candidates[leader], LeadershipEvent::LeaseExpired).1 == (
            LeadershipStep {
                publish: Some(LeadershipStatus::Follower),
                release: None,
                command: LeadershipCommand::AcquireLease { ttl: crate::leader::DEFAULT_LEASE_TTL },
            })
            &&& revoked.after(elected).after(expired).candidates[leader].status
                == LeadershipStatus::Follower
            &&& revoked.after(elected).after(expired).leads(next)
        }),
{
}

/// Voluntary give-up. Let instance `leader` lead with its lease, kept alive by
/// the task `task`, while instance `next` campaigns with a live lease of its
/// own, and let the leader's handle be released. Then the leader's loop stops
/// without publishing anything and hands its lease back; the keep-alive task,
/// told of the release, asks for the revoke of that lease; and once the lease
/// is gone the service grants the key to the campaigner, who is then the one
/// that leads. No revoke from outside is needed.
pub proof fn law_give_up(election: Election, leader: int, next: int, task: LeaseState)
    requires
        election.inv(),
        election.leads(leader),
        0 <= next < election.candidates.len(),
        next != leader,
        election.candidates[next].phase == LeadershipPhase::Campaigning,
        election.candidates[next].lease_id matches Some(id) && election.service.live.contains(id),
        task.wf(),
        task.running(),
        task.id == election.candidates[leader].lease_id,
    ensures
        ({
            let held = election.candidates[leader].lease_id->0;
            let released = Happening::Told { who: leader, event: LeadershipEvent::CancelRequested };
            let elected = Happening::Told { who: next, event: LeadershipEvent::CampaignWon };
            let stopped = election.after(released);
            let revoked = stopped.after(Happening::LeaseGone { lease_id: held });
            &&& leadership_step(election.candidates[leader], LeadershipEvent::CancelRequested).1 == (
            LeadershipStep {
                publish: None,
                release: Some(held),
                command: LeadershipCommand::Halt,
            })
            &&& stopped.candidates[leader].phase == LeadershipPhase::Stopped
            &&& lease_step(task, LeaseEvent::CancelRequested).1 == (LeaseAction::Revoke { id: held })
            &&& revoked.allows(elected)
            &&& revoked.after(elected).leads(next)
            &&& !revoked.after(elected).leads(leader)
        }),
{
}

} // verus!
