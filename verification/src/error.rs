//! Error taxonomy of the lease and leadership protocols.

use vstd::prelude::*;

verus! {

/// A parameter that is refused before any request is sent.
#[derive(Clone, Copy, Debug, PartialEq, Eq, Structural)]
pub enum ConfigError {
    /// The lease TTL, in seconds, was zero or negative.
    NonPositiveTtl,
    /// The election role name was empty.
    EmptyRoleName,
}

/// What can go wrong with a lease over its lifetime.
#[derive(Clone, Copy, Debug, PartialEq, Eq, Structural)]
pub enum LeaseError {
    /// The grant request failed: no lease was issued.
    GrantFailed,
    /// The lease was issued but its renewal stream could not be opened.
    StreamFailed,
    /// A renewal could not be sent or answered.
    RenewFailed,
    /// The revoke request sent on cancellation failed.
    RevokeFailed,
}

/// What can go wrong with a campaign.
#[derive(Clone, Copy, Debug, PartialEq, Eq, Structural)]
pub enum CampaignError {
    /// The service refused the campaign or could not be reached.
    Failed,
}

} // verus!
