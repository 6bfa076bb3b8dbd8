use vstd::prelude::*;

use crate::error::GovernanceError;
use crate::governance::{Governance, Realm};
use crate::keys::Pubkey;
use crate::proposal::{
    applied_total, deny_or_zero, lemma_applied_total_nonneg, tally_after_approve, Proposal,
    ProposalState,
};
use crate::tip::{option_weights, TipPolicy};
use crate::token_owner_record::TokenOwnerRecord;
use crate::vote::Vote;
use crate::vote_record::{ledger_extends, VoteLedger, VoteRecord};
use crate::weights::{
    resolve_max_voter_weight, resolve_voter_weight, resolved_max_voter_weight,
    resolved_voter_weight, MaxVoterWeightAttestation, VoterWeightAttestation, WeightAction,
};

verus! {

/// Everything a successful cast produced: the records to persist, the
/// snapshotted voter weight, and whether the proposal tipped. The owner's
/// record is returned separately only when the proposal tipped and the owner
/// is not the voter; when they coincide the single updated record is the
/// voter's, so no record is ever persisted twice under aliasing.
#[derive(Debug)]
pub struct CastVoteOutcome {
    pub realm: Realm,
    pub governance: Governance,
    pub proposal: Proposal,
    pub voter_record: TokenOwnerRecord,
    pub proposal_owner_record: Option<TokenOwnerRecord>,
    pub voter_weight: u64,
    pub tipped: bool,
}

/// The first check the casting protocol fails on, or None when the cast goes
/// through. The order is the protocol's: replay guard, lifecycle gate,
/// authorization, voter counters, voter weight resolution, vote shape, vote
/// application, maximum-weight resolution.
pub open spec fn cast_vote_rejection(
    ledger: Map<(Pubkey, Pubkey), VoteRecord>,
    realm_key: Pubkey,
    realm: Realm,
    governance: Governance,
    proposal_key: Pubkey,
    proposal: Proposal,
    voter_record: TokenOwnerRecord,
    authority: Pubkey,
    voter_attestation: Option<VoterWeightAttestation>,
    max_attestation: Option<MaxVoterWeightAttestation>,
    governing_token_mint_supply: u64,
    vote: Vote,
    now: i64,
) -> Option<GovernanceError> {
    if ledger.contains_key((proposal_key, voter_record.governing_token_owner)) {
        Some(GovernanceError::VoteAlreadyExists)
    } else if !proposal.can_cast_vote(governance.config, now) {
        Some(GovernanceError::InvalidState)
    } else if !voter_record.is_owner_or_delegate(authority) {
        Some(GovernanceError::Unauthorized)
    } else if !voter_record.vote_counters_in_range() {
        Some(GovernanceError::ArithmeticOverflow)
    } else {
        match resolved_voter_weight(
            realm_key,
            realm,
            voter_record,
            voter_attestation,
            WeightAction::CastVote,
            proposal_key,
        ) {
            Err(e) => Some(e),
            Ok(w) => if !proposal.vote_is_valid(vote) {
                Some(GovernanceError::InvalidVoteType)
            } else {
                match proposal.apply_vote_error(vote, w) {
                    Some(e) => Some(e),
                    None => match resolved_max_voter_weight(
                        realm_key,
                        realm,
                        proposal.governing_token_mint,
                        governing_token_mint_supply,
                        max_attestation,
                    ) {
                        Err(e) => Some(e),
                        Ok(_) => None,
                    },
                }
            },
        }
    }
}

/// Casts one vote: rejects a replay, gates on the Voting state and the
/// window, authorizes the voter's authority, books the cast on the voter's
/// counters, resolves the voter's weight, validates and applies the vote to
/// the tallies, resolves the maximum possible weight, tips the proposal early
/// when the injected predicate is already satisfied — decrementing the
/// owner's outstanding count and the realm/governance aggregates exactly once
/// — and finally creates the vote record as the durable completion proof.
/// Every failure leaves the ledger untouched, and the caller persists no
/// record, so a failed cast has zero observable effect.
pub fn process_cast_vote<P: TipPolicy>(
    ledger: &mut VoteLedger,
    realm_key: Pubkey,
    realm: Realm,
    governance: Governance,
    proposal_key: Pubkey,
    proposal: Proposal,
    voter_record: TokenOwnerRecord,
    proposal_owner_record: TokenOwnerRecord,
    authority: Pubkey,
    voter_attestation: Option<VoterWeightAttestation>,
    max_attestation: Option<MaxVoterWeightAttestation>,
    governing_token_mint_supply: u64,
    tip_policy: &P,
    vote: Vote,
    now: i64,
) -> (r: Result<CastVoteOutcome, GovernanceError>)
    ensures
        r is Err <==> cast_vote_rejection(
            old(ledger)@,
            realm_key,
            realm,
            governance,
            proposal_key,
            proposal,
            voter_record,
            authority,
            voter_attestation,
            max_attestation,
            governing_token_mint_supply,
            vote,
            now,
        ) is Some,
        r is Err ==> Some(r->Err_0) == cast_vote_rejection(
            old(ledger)@,
            realm_key,
            realm,
            governance,
            proposal_key,
            proposal,
            voter_record,
            authority,
            voter_attestation,
            max_attestation,
            governing_token_mint_supply,
            vote,
            now,
        ) && final(ledger)@ == old(ledger)@,
        ledger_extends(old(ledger)@, final(ledger)@),
        r is Ok ==> ({
            let out = r->Ok_0;
            let w = resolved_voter_weight(
                realm_key,
                realm,
                voter_record,
                voter_attestation,
                WeightAction::CastVote,
                proposal_key,
            )->Ok_0;
            let max_voter_weight = resolved_max_voter_weight(
                realm_key,
                realm,
                proposal.governing_token_mint,
                governing_token_mint_supply,
                max_attestation,
            )->Ok_0;
            let decision = tip_policy.decision(
                option_weights(out.proposal.options@),
                deny_or_zero(out.proposal.deny_vote_weight),
                max_voter_weight,
            );
            let owner_is_voter = proposal_owner_record.governing_token_owner
                == voter_record.governing_token_owner;
            let record = VoteRecord {
                proposal: proposal_key,
                governing_token_owner: voter_record.governing_token_owner,
                voter_weight: w,
                vote: vote,
                is_relinquished: false,
            };
            &&& out.voter_weight == w
            &&& (vote matches Vote::Approve(choices) ==> out.proposal.options@
                == tally_after_approve(proposal.options@, choices@, w)
                && out.proposal.deny_vote_weight == proposal.deny_vote_weight)
            &&& (vote is Deny ==> out.proposal.options@ == proposal.options@
                && out.proposal.deny_vote_weight == Some(
                (deny_or_zero(proposal.deny_vote_weight) + w) as u64,
            ))
            &&& out.proposal.tally_total() == proposal.tally_total() + applied_total(
                vote,
                w,
                proposal.options@.len() as int,
            )
            &&& out.proposal.tally_total() >= proposal.tally_total()
            &&& out.proposal.token_owner == proposal.token_owner
            &&& out.proposal.governing_token_mint == proposal.governing_token_mint
            &&& out.proposal.vote_kind == proposal.vote_kind
            &&& out.proposal.voting_at == proposal.voting_at
            &&& out.tipped == !(decision is NoTip)
            &&& (out.tipped ==> out.proposal.state == (if decision is Approve {
                ProposalState::Succeeded
            } else {
                ProposalState::Defeated
            }) && out.proposal.voting_completed_at == Some(now))
            &&& (!out.tipped ==> out.proposal.state is Voting && out.proposal.voting_completed_at
                == proposal.voting_completed_at)
            &&& out.voter_record == (if out.tipped && owner_is_voter {
                voter_record.with_vote_recorded().with_outstanding_decreased()
            } else {
                voter_record.with_vote_recorded()
            })
            &&& out.proposal_owner_record == (if out.tipped && !owner_is_voter {
                Some(proposal_owner_record.with_outstanding_decreased())
            } else {
                None::<TokenOwnerRecord>
            })
            &&& out.realm == (if out.tipped {
                realm.with_proposal_finalized()
            } else {
                realm
            })
            &&& out.governance == (if out.tipped {
                governance.with_proposal_finalized()
            } else {
                governance
            })
            &&& final(ledger)@ == old(ledger)@.insert(
                (proposal_key, voter_record.governing_token_owner),
                record,
            )
        }),
{
    let ghost vote0 = vote;
    let voter = voter_record.governing_token_owner;

    match ledger.assert_not_exists(proposal_key, voter) {
        Err(e) => {
            return Err(e);
        },
        Ok(()) => {},
    }

    let mut realm_data = realm;
    let mut governance_data = governance;
    let mut proposal_data = proposal;
    let mut voter_record_data = voter_record;

    match proposal_data.assert_can_cast_vote(&governance_data.config, now) {
        Err(e) => {
            return Err(e);
        },
        Ok(()) => {},
    }
    match voter_record_data.assert_token_owner_or_delegate(authority) {
        Err(e) => {
            return Err(e);
        },
        Ok(()) => {},
    }
    match voter_record_data.record_vote_cast() {
        Err(e) => {
            return Err(e);
        },
        Ok(()) => {},
    }

    proof {
        assert(resolved_voter_weight(
            realm_key,
            realm,
            voter_record_data,
            voter_attestation,
            WeightAction::CastVote,
            proposal_key,
        ) == resolved_voter_weight(
            realm_key,
            realm,
            voter_record,
            voter_attestation,
            WeightAction::CastVote,
            proposal_key,
        ));
    }
    let voter_weight = match resolve_voter_weight(
        realm_key,
        &realm_data,
        &voter_record_data,
        &voter_attestation,
        WeightAction::CastVote,
        proposal_key,
    ) {
        Err(e) => {
            return Err(e);
        },
        Ok(w) => w,
    };

    match proposal_data.assert_valid_vote(&vote) {
        Err(e) => {
            return Err(e);
        },
        Ok(()) => {},
    }
    match proposal_data.apply_vote(&vote, voter_weight) {
        Err(e) => {
            return Err(e);
        },
        Ok(()) => {},
    }

    let max_voter_weight = match resolve_max_voter_weight(
        realm_key,
        &realm_data,
        proposal_data.governing_token_mint,
        governing_token_mint_supply,
        &max_attestation,
    ) {
        Err(e) => {
            return Err(e);
        },
        Ok(w) => w,
    };

    let tipped = proposal_data.try_tip_vote(tip_policy, max_voter_weight, now);

    let mut proposal_owner_record_out: Option<TokenOwnerRecord> = None;
    if tipped {
        // The owner's record and the voter's record may be one logical
        // record; decrement through whichever copy will be persisted.
        if proposal_owner_record.governing_token_owner == voter {
            voter_record_data.decrease_outstanding_proposal_count();
        } else {
            let mut proposal_owner_record_data = proposal_owner_record;
            proposal_owner_record_data.decrease_outstanding_proposal_count();
            proposal_owner_record_out = Some(proposal_owner_record_data);
        }
        realm_data.voting_proposal_count = if realm_data.voting_proposal_count > 0 {
            realm_data.voting_proposal_count - 1
        } else {
            0
        };
        governance_data.voting_proposal_count = if governance_data.voting_proposal_count > 0 {
            governance_data.voting_proposal_count - 1
        } else {
            0
        };
    }

    proof {
        lemma_applied_total_nonneg(vote0, voter_weight, proposal.options@.len() as int);
    }

    let vote_record = VoteRecord {
        proposal: proposal_key,
        governing_token_owner: voter,
        voter_weight,
        vote,
        is_relinquished: false,
    };
    ledger.create(vote_record);

    Ok(
        CastVoteOutcome {
            realm: realm_data,
            governance: governance_data,
            proposal: proposal_data,
            voter_record: voter_record_data,
            proposal_owner_record: proposal_owner_record_out,
            voter_weight,
            tipped,
        },
    )
}

} // verus!
