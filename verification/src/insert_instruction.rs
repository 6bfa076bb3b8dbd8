use vstd::prelude::*;

use crate::error::GovernanceError;
use crate::instruction_queue::{
    pair_accounts, paired_accounts, InstructionData, InstructionDataBrief, ProposalTransaction,
};
use crate::keys::Pubkey;
use crate::proposal::Proposal;
use crate::token_owner_record::TokenOwnerRecord;

verus! {

/// The first check the queue-mutation protocol fails on, or None when the
/// insertion goes through. The order is the protocol's: container existence,
/// lifecycle gate, authorization.
pub open spec fn insert_instruction_rejection(
    transaction_exists: bool,
    proposal: Proposal,
    token_owner_record: TokenOwnerRecord,
    authority: Pubkey,
) -> Option<GovernanceError> {
    if !transaction_exists {
        Some(GovernanceError::TransactionDoesNotExist)
    } else if !proposal.can_edit_instructions() {
        Some(GovernanceError::InvalidState)
    } else if !token_owner_record.is_owner_or_delegate(authority) {
        Some(GovernanceError::Unauthorized)
    } else {
        None
    }
}

/// Appends one instruction to a proposal's pre-created queue container: the
/// container must already exist, the proposal must still be in an editable
/// lifecycle stage, and the authority must be the proposal owner or its
/// delegate. The new entry goes at the end — no reordering, no deduplication,
/// no bound enforced here — with its accounts paired positionally against the
/// supplied flag template, truncated to the shorter sequence. Every failure
/// leaves the queue untouched.
pub fn process_insert_instruction(
    proposal: &Proposal,
    token_owner_record: &TokenOwnerRecord,
    authority: Pubkey,
    transaction: &mut Option<ProposalTransaction>,
    instruction_program_id: Pubkey,
    instruction_account_keys: &Vec<Pubkey>,
    instruction: InstructionDataBrief,
) -> (r: Result<(), GovernanceError>)
    ensures
        r is Err <==> insert_instruction_rejection(
            (*old(transaction)) is Some,
            *proposal,
            *token_owner_record,
            authority,
        ) is Some,
        r is Err ==> Some(r->Err_0) == insert_instruction_rejection(
            (*old(transaction)) is Some,
            *proposal,
            *token_owner_record,
            authority,
        ) && *final(transaction) == *old(transaction),
        r is Ok ==> ({
            let before = (*old(transaction))->0;
            let after = (*final(transaction))->0;
            let added = after.instructions@.last();
            &&& *final(transaction) is Some
            &&& after.instructions@.len() == before.instructions@.len() + 1
            &&& (forall|i: int|
                0 <= i < before.instructions@.len() ==> after.instructions@[i]
                    == before.instructions@[i])
            &&& added.program_id == instruction_program_id
            &&& added.accounts@ == paired_accounts(
                instruction_account_keys@,
                instruction.accounts@,
            )
            &&& added.data@ == instruction.data@
        }),
{
    if transaction.is_none() {
        return Err(GovernanceError::TransactionDoesNotExist);
    }
    match proposal.assert_can_edit_instructions() {
        Err(e) => {
            return Err(e);
        },
        Ok(()) => {},
    }
    match token_owner_record.assert_token_owner_or_delegate(authority) {
        Err(e) => {
            return Err(e);
        },
        Ok(()) => {},
    }

    let accounts = pair_accounts(instruction_account_keys, &instruction.accounts);
    let mut queue = transaction.take().unwrap();
    queue.append(
        InstructionData { program_id: instruction_program_id, accounts, data: instruction.data },
    );
    *transaction = Some(queue);
    Ok(())
}

} // verus!
