use vstd::prelude::*;

verus! {

/// Failure kinds surfaced by the governance operations. Every failure aborts
/// the whole operation: a caller persists records only on success.
#[derive(Clone, Copy, PartialEq, Eq, Structural, Debug)]
pub enum GovernanceError {
    /// A vote record already exists for the (proposal, voter) pair.
    VoteAlreadyExists,
    /// The proposal's lifecycle state does not permit the operation.
    InvalidState,
    /// The acting authority is neither the token owner nor its delegate.
    Unauthorized,
    /// The vote kind is recognised but deliberately rejected (Abstain, Veto).
    NotSupportedVoteType,
    /// The vote's shape does not match the proposal's configured kind.
    InvalidVoteType,
    /// A fatal counter overflow; the operation never wraps silently.
    ArithmeticOverflow,
    /// The instruction-queue container has not been created.
    TransactionDoesNotExist,
    /// The realm requires an external weight attestation and none was supplied.
    AttestationNotFound,
    /// An external weight attestation was supplied but its scope is wrong.
    AttestationScopeMismatch,
}

} // verus!
