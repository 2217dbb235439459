//! Client-side leader election and lease lifecycle on top of a coordination
//! service that offers leases, a keep-alive stream and an atomic campaign.
//!
//! The crate holds the decisions only. Each background task of the protocol is
//! a state machine here: the caller performs the command that a transition
//! returns (an RPC, a timer, a publication) and hands back what happened as the
//! next event.

pub mod error;
pub mod lease;
pub mod leader;
pub mod lease_trace;
pub mod leader_trace;
pub mod election;
