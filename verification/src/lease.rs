//! The lifecycle of one lease: grant, renewal stream, periodic keep-alive, and
//! the two ways it ends (expiry seen from the service, or cancellation by the
//! owner).
//!
//! [`Lease`] is the state of the keep-alive task. [`keep_alive_task`] is its
//! transition function: it takes what just happened and returns what the caller
//! has to do next. The whole table is [`lease_step`].

use vstd::prelude::*;
use crate::error::{ConfigError, LeaseError};

verus! {

/// Where a lease stands in its lifecycle.
#[derive(Clone, Copy, Debug, PartialEq, Eq, Structural)]
pub enum LeasePhase {
    /// The grant request is in flight; no identifier yet.
    Granting,
    /// The lease is granted; its renewal stream is being opened.
    OpeningStream,
    /// Waiting for half the TTL to pass before the next renewal.
    Sleeping,
    /// A renewal was sent; its answer is awaited.
    Renewing,
    /// The owner cancelled; the revoke request is in flight.
    Revoking,
    /// Terminal: the service let the lease go. The expiry signal was fired.
    Expired,
    /// Terminal: the owner cancelled. The expiry signal was not fired.
    Cancelled,
    /// Terminal: the lease could not be acquired.
    Failed,
}

/// What the caller reports to the keep-alive task.
#[derive(Clone, Copy, Debug, PartialEq, Eq, Structural)]
pub enum LeaseEvent {
    /// The grant request succeeded with this lease identifier.
    Granted { id: i64 },
    /// The grant request failed.
    GrantFailed,
    /// The renewal stream is open.
    StreamOpened,
    /// The renewal stream could not be opened.
    StreamFailed,
    /// The renewal timer ran out.
    TimerFired,
    /// The service answered a renewal with the lease's remaining TTL in seconds.
    Renewed { ttl: i64 },
    /// The renewal could not be sent, or reading its answer failed.
    RenewFailed,
    /// The renewal stream ended without an answer.
    StreamClosed,
    /// The owner released the lease.
    CancelRequested,
    /// The revoke request succeeded.
    Revoked,
    /// The revoke request failed.
    RevokeFailed,
}

/// A span of time as whole seconds plus a sub-second part in nanoseconds.
#[derive(Clone, Copy, Debug, PartialEq, Eq, Structural)]
pub struct RenewalInterval {
    pub secs: u64,
    pub nanos: u32,
}

/// What the caller has to do after a transition.
#[derive(Clone, Copy, Debug, PartialEq, Eq, Structural)]
pub enum LeaseAction {
    /// Ask the service for a lease of `ttl` seconds.
    Grant { ttl: i64 },
    /// Open the renewal stream of lease `id`.
    OpenStream { id: i64 },
    /// Start the renewal timer, then report `TimerFired`.
    Sleep { interval: RenewalInterval },
    /// Send one renewal for lease `id` and read exactly one answer.
    KeepAlive { id: i64 },
    /// Ask the service to revoke lease `id`; a failure is reported, not fatal.
    Revoke { id: i64 },
    /// Fire the owner's expiry signal; the task is over.
    SignalExpiry,
    /// Acquisition failed with `error`; give it to the caller of the acquisition.
    Fail { error: LeaseError },
    /// The task is over and the expiry signal stays unfired.
    Finish,
    /// The event does not belong to the current phase; nothing changed.
    Ignore,
}

/// All that the keep-alive task knows about its lease.
#[derive(Clone, Copy, Debug, PartialEq, Eq, Structural)]
pub struct LeaseState {
    /// The identifier the service issued, once there is one.
    pub id: Option<i64>,
    /// The TTL in seconds: the one asked for, then the service's latest answer.
    pub ttl: i64,
    pub phase: LeasePhase,
    /// Why the lease ended, where an error ended it or accompanied its end.
    pub failure: Option<LeaseError>,
}

pub const NANOS_PER_SECOND: u64 = 1_000_000_000;

pub const NANOS_PER_HALF_SECOND: u32 = 500_000_000;

impl RenewalInterval {
    /// The span in nanoseconds.
    pub open spec fn total_nanos(self) -> int {
        self.secs * NANOS_PER_SECOND + self.nanos
    }
}

/// Half of a TTL given in seconds, in nanoseconds; nothing for a TTL that is
/// not positive.
pub open spec fn half_ttl_nanos(ttl: int) -> int {
    if ttl > 0 {
        ttl * NANOS_PER_HALF_SECOND
    } else {
        0
    }
}

/// Half of `ttl` seconds as a [`RenewalInterval`].
pub open spec fn half_ttl(ttl: i64) -> RenewalInterval {
    if ttl > 0 {
        RenewalInterval {
            secs: (ttl / 2) as u64,
            nanos: if ttl % 2 == 1 { NANOS_PER_HALF_SECOND } else { 0 },
        }
    } else {
        RenewalInterval { secs: 0, nanos: 0 }
    }
}

/// [`half_ttl`] is exactly half the TTL, in normal form.
pub proof fn lemma_half_ttl(ttl: i64)
    ensures
        half_ttl(ttl).total_nanos() == half_ttl_nanos(ttl as int),
        half_ttl(ttl).nanos < NANOS_PER_SECOND,
        ttl > 0 ==> 0 < half_ttl(ttl).total_nanos() < ttl * NANOS_PER_SECOND,
{
}

/// The time to wait between two renewals of a lease of `ttl` seconds: half the
/// TTL, so that one renewal interval of slack is left before the lease lapses.
pub fn renewal_interval(ttl: i64) -> (interval: RenewalInterval)
    ensures
        interval == half_ttl(ttl),
        interval.total_nanos() == half_ttl_nanos(ttl as int),
        interval.nanos < NANOS_PER_SECOND,
{
    if ttl > 0 {
        let secs: u64 = (ttl / 2) as u64;
        let nanos: u32 = if ttl % 2 == 1 {
            NANOS_PER_HALF_SECOND
        } else {
            0
        };
        RenewalInterval { secs, nanos }
    } else {
        RenewalInterval { secs: 0, nanos: 0 }
    }
}

impl LeaseState {
    /// The renewal loop is running: the task sleeps, or waits for the answer
    /// to a renewal.
    pub open spec fn running(self) -> bool {
        self.phase == LeasePhase::Sleeping || self.phase == LeasePhase::Renewing
    }

    /// No transition leaves this state.
    pub open spec fn terminal(self) -> bool {
        self.phase == LeasePhase::Expired || self.phase == LeasePhase::Cancelled
            || self.phase == LeasePhase::Failed
    }

    /// The state a fresh acquisition of `ttl` seconds starts from.
    pub open spec fn requested(ttl: i64) -> LeaseState {
        LeaseState { id: None, ttl, phase: LeasePhase::Granting, failure: None }
    }

    /// What holds of every state the task can be in.
    pub open spec fn wf(self) -> bool {
        match self.phase {
            LeasePhase::Granting => self.id is None && self.ttl > 0 && self.failure is None,
            LeasePhase::OpeningStream | LeasePhase::Sleeping | LeasePhase::Renewing => {
                self.id is Some && self.ttl > 0 && self.failure is None
            },
            LeasePhase::Revoking => self.id is Some && self.failure is None,
            LeasePhase::Expired => {
                self.id is Some && (self.failure is None || self.failure == Some(
                    LeaseError::RenewFailed,
                ))
            },
            LeasePhase::Cancelled => {
                self.failure is None || (self.id is Some && self.failure == Some(
                    LeaseError::RevokeFailed,
                ))
            },
            LeasePhase::Failed => {
                ||| self.id is None && self.failure == Some(LeaseError::GrantFailed)
                ||| self.id is Some && self.failure == Some(LeaseError::StreamFailed)
            },
        }
    }
}

/// The state after the owner's cancellation was accepted in `s`, and the
/// action that goes with it: revoke the lease where one was issued.
pub open spec fn cancel_step(s: LeaseState) -> (LeaseState, LeaseAction) {
    match s.id {
        Some(id) => (LeaseState { phase: LeasePhase::Revoking, ..s }, LeaseAction::Revoke { id }),
        None => (LeaseState { phase: LeasePhase::Cancelled, ..s }, LeaseAction::Finish),
    }
}

/// The state after the service's answer `ttl` to a renewal: the loop goes on
/// while the answer is positive, and the lease has expired otherwise.
pub open spec fn renewed_step(s: LeaseState, ttl: i64) -> (LeaseState, LeaseAction) {
    if ttl > 0 {
        (
            LeaseState { ttl, phase: LeasePhase::Sleeping, ..s },
            LeaseAction::Sleep { interval: half_ttl(ttl) },
        )
    } else {
        (LeaseState { ttl, phase: LeasePhase::Expired, ..s }, LeaseAction::SignalExpiry)
    }
}

/// The state after the lease was lost to a failed or unanswered renewal.
pub open spec fn lost_step(s: LeaseState) -> (LeaseState, LeaseAction) {
    (
        LeaseState { phase: LeasePhase::Expired, failure: Some(LeaseError::RenewFailed), ..s },
        LeaseAction::SignalExpiry,
    )
}

/// The transition table of the keep-alive task: the state after `event`
/// arrives in state `s`, and what the caller has to do then.
///
/// An event that does not belong to the phase changes nothing and asks for
/// nothing ([`LeaseAction::Ignore`]). Terminal states take no event.
pub open spec fn lease_step(s: LeaseState, event: LeaseEvent) -> (LeaseState, LeaseAction) {
    match (s.phase, event) {
        (LeasePhase::Granting, LeaseEvent::Granted { id }) => (
            LeaseState { id: Some(id), phase: LeasePhase::OpeningStream, ..s },
            LeaseAction::OpenStream { id },
        ),
        (LeasePhase::Granting, LeaseEvent::GrantFailed) => (
            LeaseState { phase: LeasePhase::Failed, failure: Some(LeaseError::GrantFailed), ..s },
            LeaseAction::Fail { error: LeaseError::GrantFailed },
        ),
        (LeasePhase::OpeningStream, LeaseEvent::StreamOpened) => (
            LeaseState { phase: LeasePhase::Sleeping, ..s },
            LeaseAction::Sleep { interval: half_ttl(s.ttl) },
        ),
        (LeasePhase::OpeningStream, LeaseEvent::StreamFailed) => (
            LeaseState { phase: LeasePhase::Failed, failure: Some(LeaseError::StreamFailed), ..s },
            LeaseAction::Fail { error: LeaseError::StreamFailed },
        ),
        (LeasePhase::Sleeping, LeaseEvent::TimerFired) => match s.id {
            Some(id) => (
                LeaseState { phase: LeasePhase::Renewing, ..s },
                LeaseAction::KeepAlive { id },
            ),
            None => (s, LeaseAction::Ignore),
        },
        (LeasePhase::Sleeping, LeaseEvent::StreamClosed) => lost_step(s),
        (LeasePhase::Renewing, LeaseEvent::Renewed { ttl }) => renewed_step(s, ttl),
        (LeasePhase::Renewing, LeaseEvent::RenewFailed) => lost_step(s),
        (LeasePhase::Renewing, LeaseEvent::StreamClosed) => lost_step(s),
        (LeasePhase::Revoking, LeaseEvent::Revoked) => (
            LeaseState { phase: LeasePhase::Cancelled, ..s },
            LeaseAction::Finish,
        ),
        (LeasePhase::Revoking, LeaseEvent::RevokeFailed) => (
            LeaseState {
                phase: LeasePhase::Cancelled,
                failure: Some(LeaseError::RevokeFailed),
                ..s
            },
            LeaseAction::Finish,
        ),
        (LeasePhase::Granting, LeaseEvent::CancelRequested)
        | (LeasePhase::OpeningStream, LeaseEvent::CancelRequested)
        | (LeasePhase::Sleeping, LeaseEvent::CancelRequested)
        | (LeasePhase::Renewing, LeaseEvent::CancelRequested) => cancel_step(s),
        _ => (s, LeaseAction::Ignore),
    }
}

/// The keep-alive task of one lease.
#[derive(Debug)]
pub struct Lease {
    state: LeaseState,
}

impl View for Lease {
    type V = LeaseState;

    closed spec fn view(&self) -> LeaseState {
        self.state
    }
}

impl Lease {
    #[verifier::type_invariant]
    spec fn well_formed(self) -> bool {
        self.state.wf()
    }

    /// The task's state.
    pub fn state(&self) -> (state: LeaseState)
        ensures
            state == self@,
            state.wf(),
    {
        proof {
            use_type_invariant(self);
        }
        self.state
    }

    /// The identifier the service issued, once there is one.
    pub fn id(&self) -> (id: Option<i64>)
        ensures
            id == self@.id,
    {
        self.state.id
    }

    /// The TTL in seconds as last heard from the service.
    pub fn ttl(&self) -> (ttl: i64)
        ensures
            ttl == self@.ttl,
    {
        self.state.ttl
    }

    /// Whether the lease is alive as far as the task has heard: the TTL it
    /// asked for, or the one the service answered last, is positive.
    pub fn is_alive(&self) -> (alive: bool)
        ensures
            alive == (self@.ttl > 0),
    {
        self.state.ttl > 0
    }

    /// Whether the renewal loop is running: the lease is acquired, and the
    /// task sleeps or waits for the answer to a renewal. A lease whose loop is
    /// running is alive and has its identifier.
    pub fn is_running(&self) -> (running: bool)
        ensures
            running == self@.running(),
            running ==> self@.ttl > 0 && self@.id is Some,
    {
        proof {
            use_type_invariant(self);
        }
        match self.state.phase {
            LeasePhase::Sleeping | LeasePhase::Renewing => true,
            _ => false,
        }
    }

    /// Takes the service's answer to a renewal: the new TTL, `None` where the
    /// stream ended, or the error. The lease goes on sleeping while the TTL is
    /// positive and has expired in every other case.
    fn keep_alive(&mut self, answer: Result<Option<i64>, LeaseError>) -> (action: LeaseAction)
        requires
            old(self)@.phase == LeasePhase::Renewing,
        ensures
            (final(self)@, action) == (match answer {
                Ok(Some(ttl)) => renewed_step(old(self)@, ttl),
                _ => lost_step(old(self)@),
            }),
    {
        proof {
            use_type_invariant(&*self);
        }
        let s = self.state;
        match answer {
            Ok(Some(ttl)) => {
                if ttl > 0 {
                    self.state = LeaseState { ttl, phase: LeasePhase::Sleeping, ..s };
                    LeaseAction::Sleep { interval: renewal_interval(ttl) }
                } else {
                    self.state = LeaseState { ttl, phase: LeasePhase::Expired, ..s };
                    LeaseAction::SignalExpiry
                }
            },
            _ => {
                self.state = LeaseState {
                    phase: LeasePhase::Expired,
                    failure: Some(LeaseError::RenewFailed),
                    ..s
                };
                LeaseAction::SignalExpiry
            },
        }
    }

    /// Accepts the owner's cancellation: the lease is revoked where one was
    /// issued, and the task is over at once where none was.
    fn revoke(&mut self) -> (action: LeaseAction)
        requires
            !old(self)@.terminal(),
            old(self)@.phase != LeasePhase::Revoking,
        ensures
            (final(self)@, action) == cancel_step(old(self)@),
    {
        proof {
            use_type_invariant(&*self);
        }
        let s = self.state;
        match s.id {
            Some(id) => {
                self.state = LeaseState { phase: LeasePhase::Revoking, ..s };
                LeaseAction::Revoke { id }
            },
            None => {
                self.state = LeaseState { phase: LeasePhase::Cancelled, ..s };
                LeaseAction::Finish
            },
        }
    }
}

/// Starts the acquisition of a lease of `ttl` seconds. The TTL must be
/// positive; the first thing to do is then the grant request.
pub fn acquire_lease(ttl: i64) -> (started: Result<(Lease, LeaseAction), ConfigError>)
    ensures
        ttl > 0 <==> started is Ok,
        started matches Ok((lease, action)) ==> lease@ == LeaseState::requested(ttl) && action
            == (LeaseAction::Grant { ttl }),
        started matches Err(error) ==> error == ConfigError::NonPositiveTtl,
{
    if ttl > 0 {
        let lease = Lease {
            state: LeaseState { id: None, ttl, phase: LeasePhase::Granting, failure: None },
        };
        Ok((lease, LeaseAction::Grant { ttl }))
    } else {
        Err(ConfigError::NonPositiveTtl)
    }
}

/// One transition of the keep-alive task: takes `event` and returns what to do
/// next, as [`lease_step`] lays down.
///
/// While the lease is held, the task alternates between sleeping for half the
/// TTL and one renewal round-trip. A cancellation is accepted in every phase
/// before the end and leads to a revoke; an answer that shows the lease gone
/// ends the task with the expiry signal. After either end nothing is done any
/// more.
pub fn keep_alive_task(lease: &mut Lease, event: LeaseEvent) -> (action: LeaseAction)
    ensures
        (final(lease)@, action) == lease_step(old(lease)@, event),
        final(lease)@.wf(),
{
    proof {
        use_type_invariant(&*lease);
    }
    let s = lease.state;
    match s.phase {
        LeasePhase::Granting => match event {
            LeaseEvent::Granted { id } => {
                lease.state = LeaseState { id: Some(id), phase: LeasePhase::OpeningStream, ..s };
                LeaseAction::OpenStream { id }
            },
            LeaseEvent::GrantFailed => {
                lease.state = LeaseState {
                    phase: LeasePhase::Failed,
                    failure: Some(LeaseError::GrantFailed),
                    ..s
                };
                LeaseAction::Fail { error: LeaseError::GrantFailed }
            },
            LeaseEvent::CancelRequested => lease.revoke(),
            _ => LeaseAction::Ignore,
        },
        LeasePhase::OpeningStream => match event {
            LeaseEvent::StreamOpened => {
                lease.state = LeaseState { phase: LeasePhase::Sleeping, ..s };
                LeaseAction::Sleep { interval: renewal_interval(s.ttl) }
            },
            LeaseEvent::StreamFailed => {
                lease.state = LeaseState {
                    phase: LeasePhase::Failed,
                    failure: Some(LeaseError::StreamFailed),
                    ..s
                };
                LeaseAction::Fail { error: LeaseError::StreamFailed }
            },
            LeaseEvent::CancelRequested => lease.revoke(),
            _ => LeaseAction::Ignore,
        },
        LeasePhase::Sleeping => match event {
            LeaseEvent::TimerFired => match s.id {
                Some(id) => {
                    lease.state = LeaseState { phase: LeasePhase::Renewing, ..s };
                    LeaseAction::KeepAlive { id }
                },
                None => LeaseAction::Ignore,
            },
            LeaseEvent::StreamClosed => {
                lease.state = LeaseState {
                    phase: LeasePhase::Expired,
                    failure: Some(LeaseError::RenewFailed),
                    ..s
                };
                LeaseAction::SignalExpiry
            },
            LeaseEvent::CancelRequested => lease.revoke(),
            _ => LeaseAction::Ignore,
        },
        LeasePhase::Renewing => match event {
            LeaseEvent::Renewed { ttl } => lease.keep_alive(Ok(Some(ttl))),
            LeaseEvent::StreamClosed => lease.keep_alive(Ok(None)),
            LeaseEvent::RenewFailed => lease.keep_alive(Err(LeaseError::RenewFailed)),
            LeaseEvent::CancelRequested => lease.revoke(),
            _ => LeaseAction::Ignore,
        },
        LeasePhase::Revoking => match event {
            LeaseEvent::Revoked => {
                lease.state = LeaseState { phase: LeasePhase::Cancelled, ..s };
                LeaseAction::Finish
            },
            LeaseEvent::RevokeFailed => {
                lease.state = LeaseState {
                    phase: LeasePhase::Cancelled,
                    failure: Some(LeaseError::RevokeFailed),
                    ..s
                };
                LeaseAction::Finish
            },
            _ => LeaseAction::Ignore,
        },
        _ => LeaseAction::Ignore,
    }
}

} // verus!
