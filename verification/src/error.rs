//! Reasons for which an activity is refused or its processing aborted.

use vstd::prelude::*;

verus! {

/// Every way in which processing one activity can fail.
#[derive(Clone, Copy, Debug, PartialEq, Eq, Structural)]
pub enum ApubError {
    /// The envelope is not structurally what its kind requires.
    MalformedEnvelope,
    /// The activity's own identifier fails the site's federation policy.
    InvalidIdentity,
    /// The addressing lists do not declare what the variant demands.
    AddressingPolicyViolation,
    /// The acting person holds no membership in the community concerned.
    ActorNotInCommunity,
    /// The actor lacks the standing the action needs, or the action's
    /// subject is no plausible target for it.
    NotAuthorized,
    /// A wrapped activity names another actor than its wrapper.
    ActorMismatch,
    /// The remote peer could not be reached or did not answer.
    UnreachablePeer,
    /// The resolved entity is of another type than the one asked for.
    UnexpectedEntityType,
    /// The remote document carries another identifier than the one requested.
    IdentityMismatch,
    /// No fetch budget is left for a reference that needs a network fetch.
    BudgetExhausted,
    /// The local store could not take a mutation after verification passed.
    ApplyFailure,
}

} // verus!
