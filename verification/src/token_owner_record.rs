use vstd::prelude::*;

use crate::error::GovernanceError;
use crate::keys::Pubkey;

verus! {

/// Per (realm, mint, owner) ledger entry of one identity's governing-token
/// voting rights: its deposited weight, vote counters, and an optional
/// delegate allowed to act on the owner's behalf.
#[derive(Clone, Copy, PartialEq, Eq, Structural, Debug)]
pub struct TokenOwnerRecord {
    /// The owner identity this record belongs to.
    pub governing_token_owner: Pubkey,
    /// The authority, if any, currently allowed to act for the owner.
    pub governance_delegate: Option<Pubkey>,
    /// The owner's deposited governing-token amount, the direct voting weight.
    pub governing_token_deposit_amount: u64,
    /// Votes cast and not yet relinquished; only a successful cast moves it.
    pub unrelinquished_votes_count: u64,
    /// Votes cast over the record's lifetime; only a successful cast moves it.
    pub total_votes_count: u64,
    /// Proposals created by the owner and not yet finalized; decremented
    /// exactly once per proposal tip, saturating at zero.
    pub outstanding_proposal_count: u64,
}

impl TokenOwnerRecord {
    /// The authority may act for this record: it is the owner itself or the
    /// currently designated delegate.
    pub open spec fn is_owner_or_delegate(self, authority: Pubkey) -> bool {
        authority == self.governing_token_owner || self.governance_delegate == Some(authority)
    }

    /// Both vote counters can still grow by one.
    pub open spec fn vote_counters_in_range(self) -> bool {
        self.unrelinquished_votes_count < u64::MAX && self.total_votes_count < u64::MAX
    }

    /// The record after one successful cast: both vote counters up by one,
    /// everything else unchanged.
    pub open spec fn with_vote_recorded(self) -> TokenOwnerRecord
        recommends
            self.vote_counters_in_range(),
    {
        TokenOwnerRecord {
            unrelinquished_votes_count: (self.unrelinquished_votes_count + 1) as u64,
            total_votes_count: (self.total_votes_count + 1) as u64,
            ..self
        }
    }

    /// The record with one fewer outstanding proposal, saturating at zero.
    pub open spec fn with_outstanding_decreased(self) -> TokenOwnerRecord {
        TokenOwnerRecord {
            outstanding_proposal_count: if self.outstanding_proposal_count == 0 {
                0u64
            } else {
                (self.outstanding_proposal_count - 1) as u64
            },
            ..self
        }
    }

    /// Fails Unauthorized unless the authority equals the owner identity or
    /// the currently designated delegate.
    pub fn assert_token_owner_or_delegate(&self, authority: Pubkey) -> (r: Result<
        (),
        GovernanceError,
    >)
        ensures
            r is Ok <==> self.is_owner_or_delegate(authority),
            r is Err ==> r->Err_0 == GovernanceError::Unauthorized,
    {
        if authority == self.governing_token_owner {
            return Ok(());
        }
        match self.governance_delegate {
            Some(delegate) => {
                if authority == delegate {
                    Ok(())
                } else {
                    Err(GovernanceError::Unauthorized)
                }
            },
            None => Err(GovernanceError::Unauthorized),
        }
    }

    /// Books one successful cast on this record: both vote counters go up by
    /// exactly one, or the whole record is left unchanged and the operation
    /// aborts with ArithmeticOverflow rather than wrapping.
    pub fn record_vote_cast(&mut self) -> (r: Result<(), GovernanceError>)
        ensures
            r is Ok <==> old(self).vote_counters_in_range(),
            r is Ok ==> *final(self) == old(self).with_vote_recorded(),
            r is Err ==> *final(self) == *old(self) && r->Err_0
                == GovernanceError::ArithmeticOverflow,
    {
        if self.unrelinquished_votes_count == u64::MAX || self.total_votes_count == u64::MAX {
            return Err(GovernanceError::ArithmeticOverflow);
        }
        self.unrelinquished_votes_count = self.unrelinquished_votes_count + 1;
        self.total_votes_count = self.total_votes_count + 1;
        Ok(())
    }

    /// Best-effort bookkeeping when a proposal leaves the voting stage: the
    /// outstanding-proposal counter goes down by one, saturating at zero.
    pub fn decrease_outstanding_proposal_count(&mut self)
        ensures
            *final(self) == old(self).with_outstanding_decreased(),
    {
        if self.outstanding_proposal_count > 0 {
            self.outstanding_proposal_count = self.outstanding_proposal_count - 1;
        }
    }
}

} // verus!
