//! The campaign loop of one leadership request: acquire a lease, campaign
//! with it for the role, hold leadership until the lease expires, start over.
//!
//! [`Leadership`] is the state of the loop. [`handle_leadership`] is its
//! transition function; the whole table is [`leadership_step`].

use vstd::prelude::*;
use crate::error::{CampaignError, ConfigError, LeaseError};

verus! {

/// What observers see of one leadership request: always the latest value only.
#[derive(Clone, Copy, Debug, PartialEq, Eq, Structural)]
pub enum LeadershipStatus {
    /// Not holding the role and never held it.
    Candidate,
    /// Holding the election key of the role, tied to this lease.
    Leader { lease_id: i64 },
    /// Lost the role when the lease expired; campaigning again.
    Follower,
}

/// Where the campaign loop stands.
#[derive(Clone, Copy, Debug, PartialEq, Eq, Structural)]
pub enum LeadershipPhase {
    /// A lease is being acquired.
    Acquiring,
    /// The campaign for the role is in flight with the acquired lease.
    Campaigning,
    /// The role is held; the lease's expiry is awaited.
    Leading,
    /// An attempt failed; the retry delay is running.
    BackingOff,
    /// Terminal: the handle was released.
    Stopped,
}

/// What the caller reports to the campaign loop.
#[derive(Clone, Copy, Debug, PartialEq, Eq, Structural)]
pub enum LeadershipEvent {
    /// A lease was acquired and is being kept alive.
    LeaseAcquired { lease_id: i64 },
    /// No lease could be acquired, for the reason given. Any reason is retried.
    LeaseFailed(LeaseError),
    /// The service granted the election key to the lease.
    CampaignWon,
    /// The campaign failed, for the reason given. Any reason is retried.
    CampaignFailed(CampaignError),
    /// The lease's expiry signal fired.
    LeaseExpired,
    /// The retry delay ran out.
    BackoffElapsed,
    /// The owner released the handle.
    CancelRequested,
}

/// The one operation the loop waits for after a transition.
#[derive(Clone, Copy, Debug, PartialEq, Eq, Structural)]
pub enum LeadershipCommand {
    /// Acquire a lease of `ttl` seconds, then report how it went.
    AcquireLease { ttl: i64 },
    /// Campaign for the role with an empty value and lease `lease_id`.
    Campaign { lease_id: i64 },
    /// Wait for the expiry signal of lease `lease_id`.
    AwaitExpiry { lease_id: i64 },
    /// Wait `millis` milliseconds, then report `BackoffElapsed`.
    Backoff { millis: u64 },
    /// The loop is over.
    Halt,
    /// The event does not belong to the current phase; go on waiting.
    Ignore,
}

/// Everything a transition asks of the caller.
#[derive(Clone, Copy, Debug, PartialEq, Eq, Structural)]
pub struct LeadershipStep {
    /// The status to publish to the observers, where it changed.
    pub publish: Option<LeadershipStatus>,
    /// The lease to hand back: its keep-alive task is to be cancelled.
    pub release: Option<i64>,
    /// What to wait for next.
    pub command: LeadershipCommand,
}

/// All that the campaign loop knows.
#[derive(Clone, Copy, Debug, PartialEq, Eq, Structural)]
pub struct LeadershipState {
    pub phase: LeadershipPhase,
    /// The lease the loop holds, from its acquisition until it is lost or
    /// handed back.
    pub lease_id: Option<i64>,
    /// The status published last.
    pub status: LeadershipStatus,
    /// Failed attempts in a row since leadership was last won.
    pub failures: u32,
}

/// The TTL, in seconds, of the leases a campaign loop acquires.
pub const DEFAULT_LEASE_TTL: i64 = 1;

/// The retry delay after a first failure, in milliseconds.
pub const BACKOFF_BASE_MILLIS: u64 = 100;

/// The longest retry delay, in milliseconds.
pub const BACKOFF_CAP_MILLIS: u64 = 3_200;

/// The retry delay after `failures` failed attempts in a row: the base delay,
/// doubled with every further failure, and never more than the cap.
pub open spec fn backoff_delay(failures: nat) -> nat
    decreases failures,
{
    if failures <= 1 {
        BACKOFF_BASE_MILLIS as nat
    } else if 2 * backoff_delay((failures - 1) as nat) >= BACKOFF_CAP_MILLIS {
        BACKOFF_CAP_MILLIS as nat
    } else {
        2 * backoff_delay((failures - 1) as nat)
    }
}

/// The retry policy is bounded: the delay is never below the base delay, so
/// that retrying never spins; it is never above the cap; and it never shrinks
/// as failures add up.
pub proof fn law_backoff_is_bounded(failures: nat)
    ensures
        BACKOFF_BASE_MILLIS <= backoff_delay(failures) <= BACKOFF_CAP_MILLIS,
        backoff_delay(failures) <= backoff_delay(failures + 1),
    decreases failures,
{
    if failures > 1 {
        law_backoff_is_bounded((failures - 1) as nat);
    }
}

/// Once the retry delay has reached the cap it stays there.
pub proof fn lemma_backoff_capped(reached: nat, failures: nat)
    requires
        backoff_delay(reached) == BACKOFF_CAP_MILLIS,
        reached <= failures,
    ensures
        backoff_delay(failures) == BACKOFF_CAP_MILLIS,
    decreases failures,
{
    if reached < failures {
        lemma_backoff_capped(reached, (failures - 1) as nat);
    }
}

/// The retry delay, in milliseconds, after `failures` failed attempts in a row.
pub fn backoff_millis(failures: u32) -> (millis: u64)
    ensures
        millis == backoff_delay(failures as nat),
        BACKOFF_BASE_MILLIS <= millis <= BACKOFF_CAP_MILLIS,
{
    let mut millis: u64 = BACKOFF_BASE_MILLIS;
    let mut counted: u32 = 1;
    while counted < failures && millis < BACKOFF_CAP_MILLIS
        invariant
            1 <= counted,
            counted <= failures || (failures == 0 && counted == 1),
            millis == backoff_delay(counted as nat),
            BACKOFF_BASE_MILLIS <= millis <= BACKOFF_CAP_MILLIS,
        decreases failures - counted,
    {
        millis = if 2 * millis >= BACKOFF_CAP_MILLIS {
            BACKOFF_CAP_MILLIS
        } else {
            2 * millis
        };
        counted = counted + 1;
    }
    proof {
        if counted < failures {
            lemma_backoff_capped(counted as nat, failures as nat);
        }
    }
    millis
}

impl LeadershipStatus {
    /// Whether this status shows the role as held.
    pub open spec fn leading(self) -> bool {
        self is Leader
    }

    /// Whether this status shows the role as held.
    pub fn is_leader(&self) -> (leading: bool)
        ensures
            leading == self.leading(),
    {
        match self {
            LeadershipStatus::Leader { .. } => true,
            _ => false,
        }
    }
}

impl LeadershipStep {
    /// A step that asks for `command` and for nothing else.
    pub open spec fn only(command: LeadershipCommand) -> LeadershipStep {
        LeadershipStep { publish: None, release: None, command }
    }
}

impl LeadershipState {
    /// The state a leadership request starts from: nothing held, and
    /// `Candidate` as the status observers see first.
    pub open spec fn initial() -> LeadershipState {
        LeadershipState {
            phase: LeadershipPhase::Acquiring,
            lease_id: None,
            status: LeadershipStatus::Candidate,
            failures: 0,
        }
    }

    /// What holds of every state the loop can be in.
    pub open spec fn wf(self) -> bool {
        match self.phase {
            LeadershipPhase::Acquiring => self.lease_id is None && !self.status.leading(),
            LeadershipPhase::BackingOff => {
                self.lease_id is None && !self.status.leading() && self.failures >= 1
            },
            LeadershipPhase::Campaigning => self.lease_id is Some && !self.status.leading(),
            LeadershipPhase::Leading => {
                &&& self.lease_id matches Some(id)
                &&& self.status == (LeadershipStatus::Leader { lease_id: id })
                &&& self.failures == 0
            },
            LeadershipPhase::Stopped => self.lease_id is None,
        }
    }

    /// The failure count after one more failed attempt.
    pub open spec fn failures_after_failure(self) -> u32 {
        if self.failures < u32::MAX {
            (self.failures + 1) as u32
        } else {
            self.failures
        }
    }
}

/// The state after an attempt failed in `s`, and the step that goes with it:
/// the lease, if one is held and `release` says so, is handed back, and the
/// retry delay starts.
pub open spec fn failure_step(s: LeadershipState, release: bool) -> (
    LeadershipState,
    LeadershipStep,
) {
    let failures = s.failures_after_failure();
    (
        LeadershipState { phase: LeadershipPhase::BackingOff, lease_id: None, failures, ..s },
        LeadershipStep {
            publish: None,
            release: if release {
                s.lease_id
            } else {
                None
            },
            command: LeadershipCommand::Backoff { millis: backoff_delay(failures as nat) as u64 },
        },
    )
}

/// The state after the handle was released in `s`: the loop is over, nothing
/// is published, and the lease in hand goes back to be revoked.
pub open spec fn stop_step(s: LeadershipState) -> (LeadershipState, LeadershipStep) {
    (
        LeadershipState { phase: LeadershipPhase::Stopped, lease_id: None, ..s },
        LeadershipStep { publish: None, release: s.lease_id, command: LeadershipCommand::Halt },
    )
}

/// The transition table of the campaign loop: the state after `event` arrives
/// in state `s`, and what the caller has to do then.
///
/// An event that does not belong to the phase changes nothing and asks for
/// nothing ([`LeadershipCommand::Ignore`]). `Stopped` takes no event.
pub open spec fn leadership_step(s: LeadershipState, event: LeadershipEvent) -> (
    LeadershipState,
    LeadershipStep,
) {
    match (s.phase, event) {
        (LeadershipPhase::Stopped, _) => (s, LeadershipStep::only(LeadershipCommand::Ignore)),
        (_, LeadershipEvent::CancelRequested) => stop_step(s),
        (LeadershipPhase::Acquiring, LeadershipEvent::LeaseAcquired { lease_id }) => (
            LeadershipState { phase: LeadershipPhase::Campaigning, lease_id: Some(lease_id), ..s },
            LeadershipStep::only(LeadershipCommand::Campaign { lease_id }),
        ),
        (LeadershipPhase::Acquiring, LeadershipEvent::LeaseFailed(_)) => failure_step(s, false),
        (LeadershipPhase::BackingOff, LeadershipEvent::BackoffElapsed) => (
            LeadershipState { phase: LeadershipPhase::Acquiring, ..s },
            LeadershipStep::only(LeadershipCommand::AcquireLease { ttl: DEFAULT_LEASE_TTL }),
        ),
        (LeadershipPhase::Campaigning, LeadershipEvent::CampaignWon) => match s.lease_id {
            Some(lease_id) => {
                let status = LeadershipStatus::Leader { lease_id };
                (
                    LeadershipState { phase: LeadershipPhase::Leading, status, failures: 0, ..s },
                    LeadershipStep {
                        publish: Some(status),
                        release: None,
                        command: LeadershipCommand::AwaitExpiry { lease_id },
                    },
                )
            },
            None => (s, LeadershipStep::only(LeadershipCommand::Ignore)),
        },
        (LeadershipPhase::Campaigning, LeadershipEvent::CampaignFailed(_)) => failure_step(
            s,
            true,
        ),
        (LeadershipPhase::Campaigning, LeadershipEvent::LeaseExpired) => failure_step(s, false),
        (LeadershipPhase::Leading, LeadershipEvent::LeaseExpired) => (
            LeadershipState {
                phase: LeadershipPhase::Acquiring,
                lease_id: None,
                status: LeadershipStatus::Follower,
                ..s
            },
            LeadershipStep {
                publish: Some(LeadershipStatus::Follower),
                release: None,
                command: LeadershipCommand::AcquireLease { ttl: DEFAULT_LEASE_TTL },
            },
        ),
        _ => (s, LeadershipStep::only(LeadershipCommand::Ignore)),
    }
}

/// The campaign loop of one leadership request.
#[derive(Debug)]
pub struct Leadership {
    role: String,
    state: LeadershipState,
}

impl View for Leadership {
    type V = LeadershipState;

    closed spec fn view(&self) -> LeadershipState {
        self.state
    }
}

impl Leadership {
    #[verifier::type_invariant]
    spec fn well_formed(self) -> bool {
        self.state.wf() && self.role@.len() > 0
    }

    /// The name of the role this request campaigns for.
    pub closed spec fn role_name(&self) -> Seq<char> {
        self.role@
    }

    /// The name of the role this request campaigns for; it is never empty.
    pub fn role(&self) -> (role: &str)
        ensures
            role@ == self.role_name(),
            role@.len() > 0,
    {
        proof {
            use_type_invariant(self);
        }
        self.role.as_str()
    }

    /// The loop's state.
    pub fn state(&self) -> (state: LeadershipState)
        ensures
            state == self@,
            state.wf(),
    {
        proof {
            use_type_invariant(self);
        }
        self.state
    }

    /// The status published last: what an observer reads now.
    pub fn status(&self) -> (status: LeadershipStatus)
        ensures
            status == self@.status,
    {
        self.state.status
    }

    /// Counts one more failed attempt and starts the retry delay. The lease in
    /// hand is dropped from the state; it is handed back where `release` says
    /// so.
    fn retry_later(&mut self, release: bool) -> (step: LeadershipStep)
        requires
            old(self)@.phase == LeadershipPhase::Acquiring || old(self)@.phase
                == LeadershipPhase::Campaigning,
        ensures
            (final(self)@, step) == failure_step(old(self)@, release),
            final(self).role_name() == old(self).role_name(),
    {
        proof {
            use_type_invariant(&*self);
        }
        let s = self.state;
        let failures: u32 = if s.failures < u32::MAX {
            s.failures + 1
        } else {
            s.failures
        };
        self.state = LeadershipState {
            phase: LeadershipPhase::BackingOff,
            lease_id: None,
            failures,
            ..s
        };
        LeadershipStep {
            publish: None,
            release: if release {
                s.lease_id
            } else {
                None
            },
            command: LeadershipCommand::Backoff { millis: backoff_millis(failures) },
        }
    }
}

/// Starts a leadership request for the role `name`, which all competing
/// instances share. The name must not be empty; the first thing to do is then
/// to acquire a lease.
pub fn request_leadership(name: &str) -> (started: Result<
    (Leadership, LeadershipStep),
    ConfigError,
>)
    ensures
        name@.len() > 0 <==> started is Ok,
        started matches Ok((leadership, step)) ==> {
            &&& leadership@ == LeadershipState::initial()
            &&& leadership.role_name() == name@
            &&& step == LeadershipStep::only(
                LeadershipCommand::AcquireLease { ttl: DEFAULT_LEASE_TTL },
            )
        },
        started matches Err(error) ==> error == ConfigError::EmptyRoleName,
{
    if name.is_empty() {
        Err(ConfigError::EmptyRoleName)
    } else {
        let leadership = Leadership {
            role: name.to_owned(),
            state: LeadershipState {
                phase: LeadershipPhase::Acquiring,
                lease_id: None,
                status: LeadershipStatus::Candidate,
                failures: 0,
            },
        };
        let step = LeadershipStep {
            publish: None,
            release: None,
            command: LeadershipCommand::AcquireLease { ttl: DEFAULT_LEASE_TTL },
        };
        Ok((leadership, step))
    }
}

/// One transition of the campaign loop: takes `event` and returns what to do
/// next, as [`leadership_step`] lays down.
///
/// The loop acquires a lease, campaigns with it, publishes `Leader` when the
/// campaign is won and `Follower` when the lease expires under it, and starts
/// over. A failed attempt is retried after a delay. Releasing the handle stops
/// the loop for good, in whatever phase it is: nothing is published after
/// that, and the lease in hand goes back to be revoked.
pub fn handle_leadership(
    leadership: &mut Leadership,
    event: LeadershipEvent,
) -> (step: LeadershipStep)
    ensures
        (final(leadership)@, step) == leadership_step(old(leadership)@, event),
        final(leadership)@.wf(),
        final(leadership).role_name() == old(leadership).role_name(),
{
    proof {
        use_type_invariant(&*leadership);
    }
    let s = leadership.state;
    let ignore = LeadershipStep { publish: None, release: None, command: LeadershipCommand::Ignore };
    match s.phase {
        LeadershipPhase::Stopped => ignore,
        _ => match event {
            LeadershipEvent::CancelRequested => {
                leadership.state = LeadershipState {
                    phase: LeadershipPhase::Stopped,
                    lease_id: None,
                    ..s
                };
                LeadershipStep {
                    publish: None,
                    release: s.lease_id,
                    command: LeadershipCommand::Halt,
                }
            },
            LeadershipEvent::LeaseAcquired { lease_id } => match s.phase {
                LeadershipPhase::Acquiring => {
                    leadership.state = LeadershipState {
                        phase: LeadershipPhase::Campaigning,
                        lease_id: Some(lease_id),
                        ..s
                    };
                    LeadershipStep {
                        publish: None,
                        release: None,
                        command: LeadershipCommand::Campaign { lease_id },
                    }
                },
                _ => ignore,
            },
            LeadershipEvent::LeaseFailed(_) => match s.phase {
                LeadershipPhase::Acquiring => leadership.retry_later(false),
                _ => ignore,
            },
            LeadershipEvent::BackoffElapsed => match s.phase {
                LeadershipPhase::BackingOff => {
                    leadership.state = LeadershipState { phase: LeadershipPhase::Acquiring, ..s };
                    LeadershipStep {
                        publish: None,
                        release: None,
                        command: LeadershipCommand::AcquireLease { ttl: DEFAULT_LEASE_TTL },
                    }
                },
                _ => ignore,
            },
            LeadershipEvent::CampaignWon => match (s.phase, s.lease_id) {
                (LeadershipPhase::Campaigning, Some(lease_id)) => {
                    let status = LeadershipStatus::Leader { lease_id };
                    leadership.state = LeadershipState {
                        phase: LeadershipPhase::Leading,
                        status,
                        failures: 0,
                        ..s
                    };
                    LeadershipStep {
                        publish: Some(status),
                        release: None,
                        command: LeadershipCommand::AwaitExpiry { lease_id },
                    }
                },
                _ => ignore,
            },
            LeadershipEvent::CampaignFailed(_) => match s.phase {
                LeadershipPhase::Campaigning => leadership.retry_later(true),
                _ => ignore,
            },
            LeadershipEvent::LeaseExpired => match s.phase {
                LeadershipPhase::Campaigning => leadership.retry_later(false),
                LeadershipPhase::Leading => {
                    leadership.state = LeadershipState {
                        phase: LeadershipPhase::Acquiring,
                        lease_id: None,
                        status: LeadershipStatus::Follower,
                        ..s
                    };
                    LeadershipStep {
                        publish: Some(LeadershipStatus::Follower),
                        release: None,
                        command: LeadershipCommand::AcquireLease { ttl: DEFAULT_LEASE_TTL },
                    }
                },
                _ => ignore,
            },
        },
    }
}

} // verus!
