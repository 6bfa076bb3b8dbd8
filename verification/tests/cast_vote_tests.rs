use spl_governance::cast_vote::process_cast_vote;
use spl_governance::error::GovernanceError;
use spl_governance::governance::{Governance, GovernanceConfig, Realm};
use spl_governance::keys::Pubkey;
use spl_governance::proposal::{Proposal, ProposalOption, ProposalState};
use spl_governance::tip::FractionThreshold;
use spl_governance::token_owner_record::TokenOwnerRecord;
use spl_governance::vote::{Vote, VoteChoice, VoteKind};
use spl_governance::vote_record::VoteLedger;
use spl_governance::weights::{MaxVoterWeightAttestation, VoterWeightAttestation, WeightAction};

fn key(value: u64) -> Pubkey {
    Pubkey { value }
}

fn realm() -> Realm {
    Realm {
        governing_token_mint: key(1),
        voting_proposal_count: 3,
        uses_voter_weight_addin: false,
        uses_max_voter_weight_addin: false,
    }
}

fn governance() -> Governance {
    Governance { config: GovernanceConfig { max_voting_time: 1000 }, voting_proposal_count: 2 }
}

fn proposal(options: usize) -> Proposal {
    Proposal {
        token_owner: key(10),
        governing_token_mint: key(1),
        state: ProposalState::Voting,
        vote_kind: VoteKind::SingleChoice,
        options: (0..options).map(|_| ProposalOption { vote_weight: 0 }).collect(),
        deny_vote_weight: Some(0),
        voting_at: 100,
        voting_completed_at: None,
    }
}

fn voter_record(owner: Pubkey, deposit: u64) -> TokenOwnerRecord {
    TokenOwnerRecord {
        governing_token_owner: owner,
        governance_delegate: None,
        governing_token_deposit_amount: deposit,
        unrelinquished_votes_count: 0,
        total_votes_count: 0,
        outstanding_proposal_count: 1,
    }
}

fn majority() -> FractionThreshold {
    FractionThreshold { numerator: 1, denominator: 2 }
}

fn approve(percentages: &[u8]) -> Vote {
    Vote::Approve(percentages.iter().map(|&p| VoteChoice { weight_percentage: p }).collect())
}

// A two-option proposal in the Voting state, resolved weight 100,
// Approve selecting option 0: option 0 gains 100, option 1 stays, the vote
// record snapshots weight 100, and both voter counters move by one.
#[test]
fn single_choice_cast() {
    let mut ledger = VoteLedger::new();
    let voter = key(20);
    let out = process_cast_vote(
        &mut ledger,
        key(2),
        realm(),
        governance(),
        key(3),
        proposal(2),
        voter_record(voter, 100),
        voter_record(key(10), 0),
        voter,
        None,
        None,
        100_000,
        &majority(),
        approve(&[100, 0]),
        150,
    )
    .unwrap();
    assert_eq!(out.voter_weight, 100);
    assert_eq!(out.proposal.options[0].vote_weight, 100);
    assert_eq!(out.proposal.options[1].vote_weight, 0);
    assert_eq!(out.proposal.deny_vote_weight, Some(0));
    assert!(!out.tipped);
    assert!(matches!(out.proposal.state, ProposalState::Voting));
    assert_eq!(out.voter_record.unrelinquished_votes_count, 1);
    assert_eq!(out.voter_record.total_votes_count, 1);
    assert_eq!(out.voter_record.outstanding_proposal_count, 1);
    assert!(out.proposal_owner_record.is_none());
    assert_eq!(out.realm.voting_proposal_count, 3);
    assert_eq!(out.governance.voting_proposal_count, 2);
    let record = ledger.get(key(3), voter).unwrap();
    assert_eq!(record.voter_weight, 100);
    assert!(!record.is_relinquished);
    assert!(matches!(&record.vote, Vote::Approve(c) if c.len() == 2));
}

// The same voter casting again on the same proposal fails with
// VoteAlreadyExists and no counters move.
#[test]
fn replay_rejected() {
    let mut ledger = VoteLedger::new();
    let voter = key(20);
    let first = process_cast_vote(
        &mut ledger,
        key(2),
        realm(),
        governance(),
        key(3),
        proposal(2),
        voter_record(voter, 100),
        voter_record(key(10), 0),
        voter,
        None,
        None,
        100_000,
        &majority(),
        approve(&[100, 0]),
        150,
    );
    assert!(first.is_ok());
    // A repeat with different content is still a replay.
    let second = process_cast_vote(
        &mut ledger,
        key(2),
        realm(),
        governance(),
        key(3),
        proposal(2),
        voter_record(voter, 100),
        voter_record(key(10), 0),
        voter,
        None,
        None,
        100_000,
        &majority(),
        Vote::Deny,
        151,
    );
    assert_eq!(second.unwrap_err(), GovernanceError::VoteAlreadyExists);
    assert_eq!(ledger.get(key(3), voter).unwrap().voter_weight, 100);
}

// A pre-Voting proposal fails InvalidState before any weight
// resolution: even a realm demanding an absent attestation reports the state.
#[test]
fn pre_voting_state_gates_first() {
    let mut ledger = VoteLedger::new();
    let voter = key(20);
    let mut draft = proposal(2);
    draft.state = ProposalState::Draft;
    let mut attested_realm = realm();
    attested_realm.uses_voter_weight_addin = true;
    let r = process_cast_vote(
        &mut ledger,
        key(2),
        attested_realm,
        governance(),
        key(3),
        draft,
        voter_record(voter, 100),
        voter_record(key(10), 0),
        voter,
        None,
        None,
        100_000,
        &majority(),
        approve(&[100, 0]),
        150,
    );
    assert_eq!(r.unwrap_err(), GovernanceError::InvalidState);
    assert!(ledger.get(key(3), voter).is_none());
}

// A Deny vote of weight 50 moves the deny accumulator 0 -> 50;
// with max voter weight 100 and a "deny reaches one half" predicate the
// proposal tips to the deny-terminal outcome and the owner's outstanding
// count goes down by one.
#[test]
fn deny_tips_proposal() {
    let mut ledger = VoteLedger::new();
    let voter = key(20);
    let owner = key(10);
    let out = process_cast_vote(
        &mut ledger,
        key(2),
        realm(),
        governance(),
        key(3),
        proposal(1),
        voter_record(voter, 50),
        voter_record(owner, 0),
        voter,
        None,
        None,
        100,
        &majority(),
        Vote::Deny,
        150,
    )
    .unwrap();
    assert_eq!(out.proposal.deny_vote_weight, Some(50));
    assert!(out.tipped);
    assert!(matches!(out.proposal.state, ProposalState::Defeated));
    assert_eq!(out.proposal.voting_completed_at, Some(150));
    let owner_out = out.proposal_owner_record.unwrap();
    assert_eq!(owner_out.outstanding_proposal_count, 0);
    assert_eq!(out.voter_record.outstanding_proposal_count, 1);
    assert_eq!(out.realm.voting_proposal_count, 2);
    assert_eq!(out.governance.voting_proposal_count, 1);
}

// An approving majority tips to Succeeded, and when the tipping voter owns
// the proposal the single voter record carries the outstanding decrement.
#[test]
fn approve_tip_with_owner_as_voter() {
    let mut ledger = VoteLedger::new();
    let owner = key(10);
    let mut voter = voter_record(owner, 60);
    voter.outstanding_proposal_count = 2;
    let out = process_cast_vote(
        &mut ledger,
        key(2),
        realm(),
        governance(),
        key(3),
        proposal(1),
        voter,
        voter,
        owner,
        None,
        None,
        100,
        &majority(),
        approve(&[100]),
        150,
    )
    .unwrap();
    assert!(out.tipped);
    assert!(matches!(out.proposal.state, ProposalState::Succeeded));
    assert!(out.proposal_owner_record.is_none());
    assert_eq!(out.voter_record.outstanding_proposal_count, 1);
    assert_eq!(out.voter_record.unrelinquished_votes_count, 1);
}

// The outstanding-proposal decrement saturates at zero instead of wrapping.
#[test]
fn outstanding_count_saturates_at_zero() {
    let mut ledger = VoteLedger::new();
    let voter = key(20);
    let mut owner_rec = voter_record(key(10), 0);
    owner_rec.outstanding_proposal_count = 0;
    let out = process_cast_vote(
        &mut ledger,
        key(2),
        realm(),
        governance(),
        key(3),
        proposal(1),
        voter_record(voter, 50),
        owner_rec,
        voter,
        None,
        None,
        100,
        &majority(),
        Vote::Deny,
        150,
    )
    .unwrap();
    assert!(out.tipped);
    assert_eq!(out.proposal_owner_record.unwrap().outstanding_proposal_count, 0);
}

// Gating on the voting window: too early and too late both fail
// InvalidState; the window's last second is still open.
#[test]
fn voting_window_bounds() {
    for (now, ok) in [(99, false), (100, true), (1100, true), (1101, false)] {
        let mut ledger = VoteLedger::new();
        let voter = key(20);
        let r = process_cast_vote(
            &mut ledger,
            key(2),
            realm(),
            governance(),
            key(3),
            proposal(1),
            voter_record(voter, 10),
            voter_record(key(10), 0),
            voter,
            None,
            None,
            100_000,
            &majority(),
            approve(&[100]),
            now,
        );
        if ok {
            assert!(r.is_ok());
        } else {
            assert_eq!(r.unwrap_err(), GovernanceError::InvalidState);
        }
    }
}

// An authority that is neither the owner nor the delegate is rejected; the
// designated delegate is accepted.
#[test]
fn delegate_authorization() {
    let mut ledger = VoteLedger::new();
    let voter = key(20);
    let delegate = key(21);
    let stranger = key(22);
    let mut rec = voter_record(voter, 10);
    rec.governance_delegate = Some(delegate);
    let denied = process_cast_vote(
        &mut ledger,
        key(2),
        realm(),
        governance(),
        key(3),
        proposal(1),
        rec,
        voter_record(key(10), 0),
        stranger,
        None,
        None,
        100_000,
        &majority(),
        approve(&[100]),
        150,
    );
    assert_eq!(denied.unwrap_err(), GovernanceError::Unauthorized);
    assert!(ledger.get(key(3), voter).is_none());
    let allowed = process_cast_vote(
        &mut ledger,
        key(2),
        realm(),
        governance(),
        key(3),
        proposal(1),
        rec,
        voter_record(key(10), 0),
        delegate,
        None,
        None,
        100_000,
        &majority(),
        approve(&[100]),
        150,
    );
    assert!(allowed.is_ok());
}

// Abstain and Veto always fail NotSupportedVoteType even when every
// other precondition holds.
#[test]
fn abstain_and_veto_rejected() {
    for vote in [Vote::Abstain, Vote::Veto] {
        let mut ledger = VoteLedger::new();
        let voter = key(20);
        let r = process_cast_vote(
            &mut ledger,
            key(2),
            realm(),
            governance(),
            key(3),
            proposal(1),
            voter_record(voter, 10),
            voter_record(key(10), 0),
            voter,
            None,
            None,
            100_000,
            &majority(),
            vote,
            150,
        );
        assert_eq!(r.unwrap_err(), GovernanceError::NotSupportedVoteType);
        assert!(ledger.get(key(3), voter).is_none());
    }
}

// Shape mismatches fail InvalidVoteType: wrong choice count, a percentage
// that is neither 0 nor 100, no selection, two selections under a
// single-choice kind, and Deny without a deny path.
#[test]
fn invalid_vote_shapes() {
    let shapes: Vec<Vote> = vec![
        approve(&[100]),
        approve(&[100, 50]),
        approve(&[0, 0]),
        approve(&[100, 100]),
    ];
    for vote in shapes {
        let mut ledger = VoteLedger::new();
        let voter = key(20);
        let r = process_cast_vote(
            &mut ledger,
            key(2),
            realm(),
            governance(),
            key(3),
            proposal(2),
            voter_record(voter, 10),
            voter_record(key(10), 0),
            voter,
            None,
            None,
            100_000,
            &majority(),
            vote,
            150,
        );
        assert_eq!(r.unwrap_err(), GovernanceError::InvalidVoteType);
    }
    let mut ledger = VoteLedger::new();
    let voter = key(20);
    let mut no_deny = proposal(1);
    no_deny.deny_vote_weight = None;
    let r = process_cast_vote(
        &mut ledger,
        key(2),
        realm(),
        governance(),
        key(3),
        no_deny,
        voter_record(voter, 10),
        voter_record(key(10), 0),
        voter,
        None,
        None,
        100_000,
        &majority(),
        Vote::Deny,
        150,
    );
    assert_eq!(r.unwrap_err(), GovernanceError::InvalidVoteType);
}

// A multi-choice proposal takes the same snapshotted weight on every
// selected option, not a division of it.
#[test]
fn multi_choice_full_weight_each() {
    let mut ledger = VoteLedger::new();
    let voter = key(20);
    let mut multi = proposal(3);
    multi.vote_kind = VoteKind::MultiChoice;
    let out = process_cast_vote(
        &mut ledger,
        key(2),
        realm(),
        governance(),
        key(3),
        multi,
        voter_record(voter, 40),
        voter_record(key(10), 0),
        voter,
        None,
        None,
        100_000,
        &majority(),
        approve(&[100, 0, 100]),
        150,
    )
    .unwrap();
    assert_eq!(out.proposal.options[0].vote_weight, 40);
    assert_eq!(out.proposal.options[1].vote_weight, 0);
    assert_eq!(out.proposal.options[2].vote_weight, 40);
}

// Fatal counter overflows abort the whole cast with ArithmeticOverflow.
#[test]
fn arithmetic_overflow_aborts() {
    // Voter counters at their ceiling.
    let mut ledger = VoteLedger::new();
    let voter = key(20);
    let mut rec = voter_record(voter, 10);
    rec.total_votes_count = u64::MAX;
    let r = process_cast_vote(
        &mut ledger,
        key(2),
        realm(),
        governance(),
        key(3),
        proposal(1),
        rec,
        voter_record(key(10), 0),
        voter,
        None,
        None,
        100_000,
        &majority(),
        approve(&[100]),
        150,
    );
    assert_eq!(r.unwrap_err(), GovernanceError::ArithmeticOverflow);
    // An option accumulator that cannot take the weight.
    let mut ledger = VoteLedger::new();
    let mut full = proposal(1);
    full.options[0].vote_weight = u64::MAX - 5;
    let r = process_cast_vote(
        &mut ledger,
        key(2),
        realm(),
        governance(),
        key(3),
        full,
        voter_record(voter, 10),
        voter_record(key(10), 0),
        voter,
        None,
        None,
        100_000,
        &majority(),
        approve(&[100]),
        150,
    );
    assert_eq!(r.unwrap_err(), GovernanceError::ArithmeticOverflow);
    assert!(ledger.get(key(3), voter).is_none());
    // A deny accumulator that cannot take the weight.
    let mut ledger = VoteLedger::new();
    let mut full = proposal(1);
    full.deny_vote_weight = Some(u64::MAX);
    let r = process_cast_vote(
        &mut ledger,
        key(2),
        realm(),
        governance(),
        key(3),
        full,
        voter_record(voter, 10),
        voter_record(key(10), 0),
        voter,
        None,
        None,
        100_000,
        &majority(),
        Vote::Deny,
        150,
    );
    assert_eq!(r.unwrap_err(), GovernanceError::ArithmeticOverflow);
}

// Delegated weight resolution: a missing attestation, a wrongly scoped one,
// and a correctly scoped one whose weight is snapshotted.
#[test]
fn attested_voter_weight() {
    let voter = key(20);
    let mut attested_realm = realm();
    attested_realm.uses_voter_weight_addin = true;
    let missing = process_cast_vote(
        &mut VoteLedger::new(),
        key(2),
        attested_realm,
        governance(),
        key(3),
        proposal(1),
        voter_record(voter, 10),
        voter_record(key(10), 0),
        voter,
        None,
        None,
        100_000,
        &majority(),
        approve(&[100]),
        150,
    );
    assert_eq!(missing.unwrap_err(), GovernanceError::AttestationNotFound);
    let badly_scoped = VoterWeightAttestation {
        realm: key(2),
        governing_token_owner: voter,
        action: WeightAction::CastVote,
        target: key(999),
        weight: 75,
    };
    let mismatched = process_cast_vote(
        &mut VoteLedger::new(),
        key(2),
        attested_realm,
        governance(),
        key(3),
        proposal(1),
        voter_record(voter, 10),
        voter_record(key(10), 0),
        voter,
        Some(badly_scoped),
        None,
        100_000,
        &majority(),
        approve(&[100]),
        150,
    );
    assert_eq!(mismatched.unwrap_err(), GovernanceError::AttestationScopeMismatch);
    let scoped = VoterWeightAttestation { target: key(3), ..badly_scoped };
    let out = process_cast_vote(
        &mut VoteLedger::new(),
        key(2),
        attested_realm,
        governance(),
        key(3),
        proposal(1),
        voter_record(voter, 10),
        voter_record(key(10), 0),
        voter,
        Some(scoped),
        None,
        100_000,
        &majority(),
        approve(&[100]),
        150,
    )
    .unwrap();
    assert_eq!(out.voter_weight, 75);
    assert_eq!(out.proposal.options[0].vote_weight, 75);
}

// Delegated maximum-weight resolution feeds the tipping predicate: an
// attested maximum of 100 lets a 60-weight vote tip where the mint supply
// alone would not.
#[test]
fn attested_max_weight_tips() {
    let voter = key(20);
    let mut attested_realm = realm();
    attested_realm.uses_max_voter_weight_addin = true;
    let max_attestation = MaxVoterWeightAttestation {
        realm: key(2),
        governing_token_mint: key(1),
        weight: 100,
    };
    let out = process_cast_vote(
        &mut VoteLedger::new(),
        key(2),
        attested_realm,
        governance(),
        key(3),
        proposal(1),
        voter_record(voter, 60),
        voter_record(key(10), 0),
        voter,
        None,
        Some(max_attestation),
        1_000_000,
        &majority(),
        approve(&[100]),
        150,
    )
    .unwrap();
    assert!(out.tipped);
    assert!(matches!(out.proposal.state, ProposalState::Succeeded));
    let wrong_mint = MaxVoterWeightAttestation { governing_token_mint: key(9), ..max_attestation };
    let r = process_cast_vote(
        &mut VoteLedger::new(),
        key(2),
        attested_realm,
        governance(),
        key(3),
        proposal(1),
        voter_record(voter, 60),
        voter_record(key(10), 0),
        voter,
        None,
        Some(wrong_mint),
        1_000_000,
        &majority(),
        approve(&[100]),
        150,
    );
    assert_eq!(r.unwrap_err(), GovernanceError::AttestationScopeMismatch);
}

// Two successful casts leave the combined total equal
// to the sum of the applied weights.
#[test]
fn tally_accumulates_across_casts() {
    let mut ledger = VoteLedger::new();
    let first = process_cast_vote(
        &mut ledger,
        key(2),
        realm(),
        governance(),
        key(3),
        proposal(2),
        voter_record(key(20), 100),
        voter_record(key(10), 0),
        key(20),
        None,
        None,
        100_000,
        &majority(),
        approve(&[100, 0]),
        150,
    )
    .unwrap();
    let second = process_cast_vote(
        &mut ledger,
        key(2),
        realm(),
        governance(),
        key(3),
        first.proposal,
        voter_record(key(21), 30),
        voter_record(key(10), 0),
        key(21),
        None,
        None,
        100_000,
        &majority(),
        Vote::Deny,
        151,
    )
    .unwrap();
    assert_eq!(second.proposal.options[0].vote_weight, 100);
    assert_eq!(second.proposal.options[1].vote_weight, 0);
    assert_eq!(second.proposal.deny_vote_weight, Some(30));
    let total: u64 = second.proposal.options.iter().map(|o| o.vote_weight).sum::<u64>()
        + second.proposal.deny_vote_weight.unwrap();
    assert_eq!(total, 130);
}

#[test]
fn ledger_get_and_contains() {
    let mut ledger = VoteLedger::new();
    assert!(!ledger.contains_record(key(3), key(20)));
    assert!(ledger.get(key(3), key(20)).is_none());
    let out = process_cast_vote(
        &mut ledger,
        key(2),
        realm(),
        governance(),
        key(3),
        proposal(1),
        voter_record(key(20), 10),
        voter_record(key(10), 0),
        key(20),
        None,
        None,
        100_000,
        &majority(),
        approve(&[100]),
        150,
    );
    assert!(out.is_ok());
    assert!(ledger.contains_record(key(3), key(20)));
    assert!(!ledger.contains_record(key(4), key(20)));
    assert_eq!(ledger.get(key(3), key(20)).unwrap().governing_token_owner, key(20));
}

// Window arithmetic near the ends of the timestamp range must not wrap.
#[test]
fn extreme_timestamps() {
    let mut ledger = VoteLedger::new();
    let voter = key(20);
    let mut early = proposal(1);
    early.voting_at = i64::MIN;
    let r = process_cast_vote(
        &mut ledger,
        key(2),
        realm(),
        governance(),
        key(3),
        early,
        voter_record(voter, 10),
        voter_record(key(10), 0),
        voter,
        None,
        None,
        100_000,
        &majority(),
        approve(&[100]),
        i64::MIN + 500,
    );
    assert!(r.is_ok());
    let mut late = proposal(1);
    late.voting_at = i64::MAX;
    let r = process_cast_vote(
        &mut VoteLedger::new(),
        key(2),
        realm(),
        governance(),
        key(3),
        late,
        voter_record(voter, 10),
        voter_record(key(10), 0),
        voter,
        None,
        None,
        100_000,
        &majority(),
        approve(&[100]),
        i64::MAX,
    );
    assert!(r.is_ok());
}

// A proposal with no options still takes Deny votes, and only the deny side
// can tip it.
#[test]
fn deny_only_proposal() {
    let mut ledger = VoteLedger::new();
    let voter = key(20);
    let mut no_options = proposal(0);
    no_options.options = vec![];
    let out = process_cast_vote(
        &mut ledger,
        key(2),
        realm(),
        governance(),
        key(3),
        no_options,
        voter_record(voter, 60),
        voter_record(key(10), 0),
        voter,
        None,
        None,
        100,
        &majority(),
        Vote::Deny,
        150,
    )
    .unwrap();
    assert!(out.tipped);
    assert!(matches!(out.proposal.state, ProposalState::Defeated));
    assert_eq!(out.proposal.deny_vote_weight, Some(60));
}
