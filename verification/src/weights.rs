use vstd::prelude::*;

use crate::error::GovernanceError;
use crate::governance::Realm;
use crate::keys::Pubkey;
use crate::token_owner_record::TokenOwnerRecord;

verus! {

/// The action an external weight attestation is scoped to.
#[derive(Clone, Copy, PartialEq, Eq, Structural, Debug)]
pub enum WeightAction {
    CastVote,
    CommentProposal,
    CreateGovernance,
    CreateProposal,
    SignOffProposal,
}

/// An external plugin's statement of one voter's weight, scoped to exactly
/// one realm, voter, action and target. Located by the caller; validated and
/// consumed here.
#[derive(Clone, Copy, PartialEq, Eq, Structural, Debug)]
pub struct VoterWeightAttestation {
    pub realm: Pubkey,
    pub governing_token_owner: Pubkey,
    pub action: WeightAction,
    pub target: Pubkey,
    pub weight: u64,
}

/// An external plugin's statement of the maximum possible voter weight,
/// scoped to a realm and governing mint but to no specific voter.
#[derive(Clone, Copy, PartialEq, Eq, Structural, Debug)]
pub struct MaxVoterWeightAttestation {
    pub realm: Pubkey,
    pub governing_token_mint: Pubkey,
    pub weight: u64,
}

/// The attestation is scoped to exactly this realm, voter, action and target.
pub open spec fn voter_attestation_matches(
    a: VoterWeightAttestation,
    realm_key: Pubkey,
    voter: Pubkey,
    action: WeightAction,
    target: Pubkey,
) -> bool {
    a.realm == realm_key && a.governing_token_owner == voter && a.action == action && a.target
        == target
}

/// The attestation is scoped to exactly this realm and governing mint.
pub open spec fn max_attestation_matches(
    a: MaxVoterWeightAttestation,
    realm_key: Pubkey,
    governing_token_mint: Pubkey,
) -> bool {
    a.realm == realm_key && a.governing_token_mint == governing_token_mint
}

/// What voter weight resolution returns: the deposited amount when the realm
/// resolves weights directly, otherwise the weight of a correctly scoped
/// external attestation, and the exact failure when none qualifies.
pub open spec fn resolved_voter_weight(
    realm_key: Pubkey,
    realm: Realm,
    record: TokenOwnerRecord,
    attestation: Option<VoterWeightAttestation>,
    action: WeightAction,
    target: Pubkey,
) -> Result<u64, GovernanceError> {
    if !realm.uses_voter_weight_addin {
        Ok(record.governing_token_deposit_amount)
    } else {
        match attestation {
            None => Err(GovernanceError::AttestationNotFound),
            Some(a) => if voter_attestation_matches(
                a,
                realm_key,
                record.governing_token_owner,
                action,
                target,
            ) {
                Ok(a.weight)
            } else {
                Err(GovernanceError::AttestationScopeMismatch)
            },
        }
    }
}

/// What maximum-weight resolution returns: the mint supply when the realm
/// resolves it directly, otherwise the weight of a correctly scoped external
/// attestation, and the exact failure when none qualifies.
pub open spec fn resolved_max_voter_weight(
    realm_key: Pubkey,
    realm: Realm,
    governing_token_mint: Pubkey,
    governing_token_mint_supply: u64,
    attestation: Option<MaxVoterWeightAttestation>,
) -> Result<u64, GovernanceError> {
    if !realm.uses_max_voter_weight_addin {
        Ok(governing_token_mint_supply)
    } else {
        match attestation {
            None => Err(GovernanceError::AttestationNotFound),
            Some(a) => if max_attestation_matches(a, realm_key, governing_token_mint) {
                Ok(a.weight)
            } else {
                Err(GovernanceError::AttestationScopeMismatch)
            },
        }
    }
}

/// Resolves the weight one voter casts with: the owner record's deposited
/// amount in direct mode, or a validated external attestation in delegated
/// mode. Scope fields of a supplied attestation must match exactly.
pub fn resolve_voter_weight(
    realm_key: Pubkey,
    realm: &Realm,
    record: &TokenOwnerRecord,
    attestation: &Option<VoterWeightAttestation>,
    action: WeightAction,
    target: Pubkey,
) -> (r: Result<u64, GovernanceError>)
    ensures
        r == resolved_voter_weight(realm_key, *realm, *record, *attestation, action, target),
{
    if !realm.uses_voter_weight_addin {
        return Ok(record.governing_token_deposit_amount);
    }
    match attestation {
        None => Err(GovernanceError::AttestationNotFound),
        Some(a) => {
            if a.realm == realm_key && a.governing_token_owner == record.governing_token_owner
                && a.action == action && a.target == target {
                Ok(a.weight)
            } else {
                Err(GovernanceError::AttestationScopeMismatch)
            }
        },
    }
}

/// Resolves the maximum weight any voter could cast with, used by the
/// tipping predicate: the mint supply in direct mode, or a validated
/// external attestation in delegated mode.
pub fn resolve_max_voter_weight(
    realm_key: Pubkey,
    realm: &Realm,
    governing_token_mint: Pubkey,
    governing_token_mint_supply: u64,
    attestation: &Option<MaxVoterWeightAttestation>,
) -> (r: Result<u64, GovernanceError>)
    ensures
        r == resolved_max_voter_weight(
            realm_key,
            *realm,
            governing_token_mint,
            governing_token_mint_supply,
            *attestation,
        ),
{
    if !realm.uses_max_voter_weight_addin {
        return Ok(governing_token_mint_supply);
    }
    match attestation {
        None => Err(GovernanceError::AttestationNotFound),
        Some(a) => {
            if a.realm == realm_key && a.governing_token_mint == governing_token_mint {
                Ok(a.weight)
            } else {
                Err(GovernanceError::AttestationScopeMismatch)
            }
        },
    }
}

} // verus!
