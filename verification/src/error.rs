//! Error taxonomy of the activity core.
//!
//! A `ValidationError` rejects the whole activity with no partial effect;
//! a `ResolveError` is a hard failure of the current operation and is not
//! retried here.  Every error from any verification gate aborts all later
//! gates and the moderation effect.

use vstd::prelude::*;

verus! {

/// Rejection of an inbound activity by one of the verification gates.
#[derive(Clone, Copy, Debug, PartialEq, Eq, Structural)]
pub enum ValidationError {
    /// The outer `to` set does not carry the public marker.
    NotPublic,
    /// The acting person is not a known member of the community.
    ActorNotInCommunity,
    /// The acting person does not currently hold moderator privilege.
    NotAModerator,
    /// The envelope is structurally unusable: a missing or ill-typed
    /// field, or an identity inconsistent with the signing actor.
    Malformed,
}

/// Failure while resolving a remote reference.
#[derive(Clone, Copy, Debug, PartialEq, Eq, Structural)]
pub enum ResolveError {
    /// The per-operation fetch budget is exhausted.
    FetchBudgetExceeded,
    /// The remote side could not be reached or gave no usable answer.
    NetworkError,
    /// The reference does not denote a known entity of the expected kind.
    NotFound,
}

/// Any failure of an inbound `verify` or `receive` operation.
#[derive(Clone, Copy, Debug, PartialEq, Eq, Structural)]
pub enum ActivityError {
    Validation(ValidationError),
    Resolution(ResolveError),
}

impl ActivityError {
    /// A short stable label for logs and tests.
    pub fn label(&self) -> (r: &'static str)
        ensures
            r@ == self.spec_label(),
    {
        match self {
            ActivityError::Validation(ValidationError::NotPublic) => "not_public",
            ActivityError::Validation(ValidationError::ActorNotInCommunity) => {
                "actor_not_in_community"
            },
            ActivityError::Validation(ValidationError::NotAModerator) => "not_a_moderator",
            ActivityError::Validation(ValidationError::Malformed) => "malformed",
            ActivityError::Resolution(ResolveError::FetchBudgetExceeded) => {
                "fetch_budget_exceeded"
            },
            ActivityError::Resolution(ResolveError::NetworkError) => "network_error",
            ActivityError::Resolution(ResolveError::NotFound) => "not_found",
        }
    }

    /// What `label` returns for each variant.
    pub open spec fn spec_label(self) -> Seq<char> {
        match self {
            ActivityError::Validation(ValidationError::NotPublic) => "not_public"@,
            ActivityError::Validation(ValidationError::ActorNotInCommunity) => {
                "actor_not_in_community"@
            },
            ActivityError::Validation(ValidationError::NotAModerator) => "not_a_moderator"@,
            ActivityError::Validation(ValidationError::Malformed) => "malformed"@,
            ActivityError::Resolution(ResolveError::FetchBudgetExceeded) => {
                "fetch_budget_exceeded"@
            },
            ActivityError::Resolution(ResolveError::NetworkError) => "network_error"@,
            ActivityError::Resolution(ResolveError::NotFound) => "not_found"@,
        }
    }
}

} // verus!
