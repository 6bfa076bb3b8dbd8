use vstd::prelude::*;

use crate::keys::Pubkey;
use crate::proposal::min_len;

verus! {

/// Signer/writable flags for one instruction account, supplied by the caller
/// as a template entry to be paired positionally with an account reference.
#[derive(Clone, Copy, PartialEq, Eq, Structural, Debug)]
pub struct AccountMetaDataBrief {
    pub is_signer: bool,
    pub is_writable: bool,
}

/// One fully described account of a queued instruction.
#[derive(Clone, Copy, PartialEq, Eq, Structural, Debug)]
pub struct AccountMetaData {
    pub pubkey: Pubkey,
    pub is_signer: bool,
    pub is_writable: bool,
}

/// An instruction as submitted for queueing: the flag template for its
/// accounts and the opaque payload; the account addresses arrive separately.
#[derive(Debug)]
pub struct InstructionDataBrief {
    pub accounts: Vec<AccountMetaDataBrief>,
    pub data: Vec<u8>,
}

/// One queued instruction: the target program, its paired account list, and
/// the opaque payload, read later by the out-of-scope executor.
#[derive(Debug)]
pub struct InstructionData {
    pub program_id: Pubkey,
    pub accounts: Vec<AccountMetaData>,
    pub data: Vec<u8>,
}

/// The pre-created instruction-queue container attached to a proposal: an
/// ordered sequence, append-only while the proposal stays editable.
#[derive(Debug)]
pub struct ProposalTransaction {
    pub instructions: Vec<InstructionData>,
}

impl ProposalTransaction {
    /// Adds one instruction at the end of the ordered sequence: no
    /// reordering, no deduplication, no bound enforced here.
    pub fn append(&mut self, entry: InstructionData)
        ensures
            final(self).instructions@ == old(self).instructions@.push(entry),
    {
        self.instructions.push(entry);
    }
}

/// Account references paired position-by-position with the flag template,
/// stopping at the shorter of the two sequences. Truncating silently on an
/// arity mismatch, rather than failing loudly, is a deliberate choice; the
/// contract states the truncation so callers can check arities themselves.
pub open spec fn paired_accounts(keys: Seq<Pubkey>, metas: Seq<AccountMetaDataBrief>) -> Seq<
    AccountMetaData,
> {
    Seq::new(
        min_len(keys.len() as int, metas.len() as int) as nat,
        |i: int|
            AccountMetaData {
                pubkey: keys[i],
                is_signer: metas[i].is_signer,
                is_writable: metas[i].is_writable,
            },
    )
}

/// Builds the paired account list of a new queue entry.
#[verifier::loop_isolation(false)]
pub fn pair_accounts(keys: &Vec<Pubkey>, metas: &Vec<AccountMetaDataBrief>) -> (paired: Vec<
    AccountMetaData,
>)
    ensures
        paired@ == paired_accounts(keys@, metas@),
{
    let n = if keys.len() <= metas.len() {
        keys.len()
    } else {
        metas.len()
    };
    let mut paired: Vec<AccountMetaData> = Vec::new();
    let mut i: usize = 0;
    while i < n
        invariant
            0 <= i <= n,
            n == min_len(keys@.len() as int, metas@.len() as int),
            paired@.len() == i,
            forall|j: int| 0 <= j < i ==> paired@[j] == paired_accounts(keys@, metas@)[j],
        decreases n - i,
    {
        paired.push(
            AccountMetaData {
                pubkey: keys[i],
                is_signer: metas[i].is_signer,
                is_writable: metas[i].is_writable,
            },
        );
        i = i + 1;
    }
    proof {
        assert(paired@ =~= paired_accounts(keys@, metas@));
    }
    paired
}

} // verus!
