use vstd::prelude::*;

use crate::keys::Pubkey;

verus! {

/// One step of best-effort bookkeeping: down by one, never below zero.
pub open spec fn saturating_dec(count: u64) -> u64 {
    if count == 0 {
        0u64
    } else {
        (count - 1) as u64
    }
}

/// The per-governance voting rules consulted while casting.
#[derive(Clone, Copy, PartialEq, Eq, Structural, Debug)]
pub struct GovernanceConfig {
    /// Length of the voting window in seconds, measured from the moment the
    /// proposal entered the Voting state.
    pub max_voting_time: u32,
}

/// A per-category configuration and counter scope nested under a Realm.
#[derive(Clone, Copy, PartialEq, Eq, Structural, Debug)]
pub struct Governance {
    pub config: GovernanceConfig,
    /// Proposals of this governance currently in their voting stage;
    /// decremented, saturating, when one of them tips.
    pub voting_proposal_count: u64,
}

/// The root registry grouping a governance ecosystem around a governing
/// token mint.
#[derive(Clone, Copy, PartialEq, Eq, Structural, Debug)]
pub struct Realm {
    /// The governing token mint voted with in this realm.
    pub governing_token_mint: Pubkey,
    /// Proposals across the realm currently in their voting stage;
    /// decremented, saturating, when one of them tips.
    pub voting_proposal_count: u64,
    /// Voter weight comes from an external attestation rather than from the
    /// deposited amount.
    pub uses_voter_weight_addin: bool,
    /// The maximum possible voter weight comes from an external attestation
    /// rather than from the mint supply.
    pub uses_max_voter_weight_addin: bool,
}

impl Governance {
    /// The governance after one of its proposals tipped.
    pub open spec fn with_proposal_finalized(self) -> Governance {
        Governance { voting_proposal_count: saturating_dec(self.voting_proposal_count), ..self }
    }
}

impl Realm {
    /// The realm after one of its proposals tipped.
    pub open spec fn with_proposal_finalized(self) -> Realm {
        Realm { voting_proposal_count: saturating_dec(self.voting_proposal_count), ..self }
    }
}

} // verus!
