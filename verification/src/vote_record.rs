use vstd::prelude::*;

use crate::error::GovernanceError;
use crate::keys::Pubkey;
use crate::vote::Vote;

verus! {

/// The immutable per-voter receipt of a cast vote: the snapshotted resolved
/// weight and the vote value. Its existence at a (proposal, voter) key is
/// precisely the replay guard.
#[derive(Debug)]
pub struct VoteRecord {
    /// The proposal voted on.
    pub proposal: Pubkey,
    /// The voter's identity.
    pub governing_token_owner: Pubkey,
    /// The resolved weight at the moment of the cast.
    pub voter_weight: u64,
    /// The cast vote value.
    pub vote: Vote,
    /// Whether the voter has since relinquished the vote; always false at
    /// creation.
    pub is_relinquished: bool,
}

/// The key a vote record lives under.
pub open spec fn record_key(record: VoteRecord) -> (Pubkey, Pubkey) {
    (record.proposal, record.governing_token_owner)
}

/// The vote records as a map from (proposal, voter) to the stored record; a
/// later record for a key would shadow an earlier one, but the casting
/// protocol only ever creates at absent keys.
pub open spec fn records_map(records: Seq<VoteRecord>) -> Map<(Pubkey, Pubkey), VoteRecord>
    decreases records.len(),
{
    if records.len() == 0 {
        Map::empty()
    } else {
        records_map(records.drop_last()).insert(record_key(records.last()), records.last())
    }
}

/// A key is in the map exactly when some record carries it.
pub proof fn lemma_records_map_contains(records: Seq<VoteRecord>, key: (Pubkey, Pubkey))
    ensures
        records_map(records).contains_key(key) <==> exists|i: int|
            0 <= i < records.len() && record_key(records[i]) == key,
    decreases records.len(),
{
    if records.len() > 0 {
        let prefix = records.drop_last();
        lemma_records_map_contains(prefix, key);
        if record_key(records.last()) == key {
            assert(record_key(records[records.len() - 1]) == key);
        } else {
            if exists|i: int| 0 <= i < prefix.len() && record_key(prefix[i]) == key {
                let i = choose|i: int| 0 <= i < prefix.len() && record_key(prefix[i]) == key;
                assert(record_key(records[i]) == key);
            }
            if exists|i: int| 0 <= i < records.len() && record_key(records[i]) == key {
                let i = choose|i: int| 0 <= i < records.len() && record_key(records[i]) == key;
                assert(record_key(prefix[i]) == key);
            }
        }
    }
}

/// The map holds the last record carrying a key.
pub proof fn lemma_records_map_value(records: Seq<VoteRecord>, at: int)
    requires
        0 <= at < records.len(),
        forall|j: int| at < j < records.len() ==> record_key(records[j]) != record_key(
            records[at],
        ),
    ensures
        records_map(records).contains_key(record_key(records[at])),
        records_map(records)[record_key(records[at])] == records[at],
    decreases records.len(),
{
    if at == records.len() - 1 {
    } else {
        let prefix = records.drop_last();
        assert forall|j: int| at < j < prefix.len() implies record_key(prefix[j]) != record_key(
            prefix[at],
        ) by {
            assert(prefix[j] == records[j]);
        }
        lemma_records_map_value(prefix, at);
        assert(record_key(records.last()) != record_key(records[at]));
    }
}

/// The vote ledger: one immutable record per (proposal, voter). A record's
/// prior existence is what rejects a replayed cast.
#[derive(Debug)]
pub struct VoteLedger {
    records: Vec<VoteRecord>,
}

impl View for VoteLedger {
    type V = Map<(Pubkey, Pubkey), VoteRecord>;

    closed spec fn view(&self) -> Map<(Pubkey, Pubkey), VoteRecord> {
        records_map(self.records@)
    }
}

/// The later ledger state extends the earlier one: every record that ever
/// existed still exists, unchanged. Every ledger operation preserves this, so
/// it holds across any chain of casts.
pub open spec fn ledger_extends(
    earlier: Map<(Pubkey, Pubkey), VoteRecord>,
    later: Map<(Pubkey, Pubkey), VoteRecord>,
) -> bool {
    forall|key: (Pubkey, Pubkey)| #[trigger]
        earlier.contains_key(key) ==> later.contains_key(key) && later[key] == earlier[key]
}

/// Replay freedom: once a vote record exists for a (proposal, voter) pair, it
/// persists unchanged into every later ledger state, so any later cast for
/// the same pair keeps being rejected with VoteAlreadyExists — the casting
/// protocol's first check refuses a present key. At most one cast per pair
/// ever succeeds.
pub proof fn lemma_vote_record_persists(
    earlier: Map<(Pubkey, Pubkey), VoteRecord>,
    later: Map<(Pubkey, Pubkey), VoteRecord>,
    key: (Pubkey, Pubkey),
)
    requires
        ledger_extends(earlier, later),
        earlier.contains_key(key),
    ensures
        later.contains_key(key),
        later[key] == earlier[key],
{
}

/// Ledger extension is transitive, so persistence holds across any number of
/// intervening operations.
pub proof fn lemma_ledger_extends_transitive(
    first: Map<(Pubkey, Pubkey), VoteRecord>,
    second: Map<(Pubkey, Pubkey), VoteRecord>,
    third: Map<(Pubkey, Pubkey), VoteRecord>,
)
    requires
        ledger_extends(first, second),
        ledger_extends(second, third),
    ensures
        ledger_extends(first, third),
{
}

impl VoteLedger {
    /// An empty ledger, before any vote has been cast.
    pub fn new() -> (ledger: VoteLedger)
        ensures
            ledger@ == Map::<(Pubkey, Pubkey), VoteRecord>::empty(),
    {
        VoteLedger { records: Vec::new() }
    }

    /// Whether a record exists for the (proposal, voter) pair.
    #[verifier::loop_isolation(false)]
    pub fn contains_record(&self, proposal: Pubkey, voter: Pubkey) -> (present: bool)
        ensures
            present == self@.contains_key((proposal, voter)),
    {
        let mut i: usize = 0;
        while i < self.records.len()
            invariant
                0 <= i <= self.records@.len(),
                forall|j: int| 0 <= j < i ==> record_key(self.records@[j]) != (proposal, voter),
            decreases self.records@.len() - i,
        {
            if self.records[i].proposal == proposal && self.records[i].governing_token_owner
                == voter {
                proof {
                    lemma_records_map_contains(self.records@, (proposal, voter));
                }
                return true;
            }
            i = i + 1;
        }
        proof {
            lemma_records_map_contains(self.records@, (proposal, voter));
        }
        false
    }

    /// Fails VoteAlreadyExists if a record already exists at the key — the
    /// replay guard.
    pub fn assert_not_exists(&self, proposal: Pubkey, voter: Pubkey) -> (r: Result<
        (),
        GovernanceError,
    >)
        ensures
            r is Ok <==> !self@.contains_key((proposal, voter)),
            r is Err ==> r->Err_0 == GovernanceError::VoteAlreadyExists,
    {
        if self.contains_record(proposal, voter) {
            Err(GovernanceError::VoteAlreadyExists)
        } else {
            Ok(())
        }
    }

    /// Stores a record unconditionally — the final, durable step of a
    /// successful cast. The protocol calls it only at a key it has just
    /// checked to be absent.
    pub fn create(&mut self, record: VoteRecord)
        ensures
            final(self)@ == old(self)@.insert(record_key(record), record),
    {
        let ghost before = self.records@;
        self.records.push(record);
        proof {
            assert(self.records@.drop_last() =~= before);
        }
    }

    /// The record stored for the (proposal, voter) pair, if any.
    #[verifier::loop_isolation(false)]
    pub fn get(&self, proposal: Pubkey, voter: Pubkey) -> (r: Option<&VoteRecord>)
        ensures
            match r {
                Some(record) => self@.contains_key((proposal, voter)) && *record == self@[(
                    proposal,
                    voter,
                )],
                None => !self@.contains_key((proposal, voter)),
            },
    {
        let mut i: usize = self.records.len();
        while i > 0
            invariant
                0 <= i <= self.records@.len(),
                forall|j: int|
                    i <= j < self.records@.len() ==> record_key(self.records@[j]) != (
                    proposal,
                    voter,
                ),
            decreases i,
        {
            i = i - 1;
            if self.records[i].proposal == proposal && self.records[i].governing_token_owner
                == voter {
                proof {
                    lemma_records_map_value(self.records@, i as int);
                }
                return Some(&self.records[i]);
            }
        }
        proof {
            lemma_records_map_contains(self.records@, (proposal, voter));
        }
        None
    }
}

} // verus!
