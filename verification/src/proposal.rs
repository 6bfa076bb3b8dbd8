use vstd::prelude::*;

use crate::error::GovernanceError;
use crate::governance::GovernanceConfig;
use crate::keys::Pubkey;
use crate::tip::{option_weights, TipDecision, TipPolicy};
use crate::vote::{
    choice_is_valid, choice_weight, lemma_selected_count_push, selected_count, Vote, VoteChoice,
    VoteKind,
};

verus! {

/// The proposal lifecycle. Voting is the only state that accepts casts;
/// Succeeded and Defeated are the two terminal tipped outcomes; instructions
/// may be edited only in the stages before sign-off completes.
#[derive(Clone, Copy, PartialEq, Eq, Structural, Debug)]
pub enum ProposalState {
    Draft,
    SigningOff,
    Voting,
    Succeeded,
    Defeated,
    Executing,
    Completed,
    Cancelled,
}

/// One votable option with its accumulated approval weight.
#[derive(Clone, Copy, PartialEq, Eq, Structural, Debug)]
pub struct ProposalOption {
    pub vote_weight: u64,
}

/// A votable item: its owner reference, governing mint, ordered options, an
/// optional deny tally, lifecycle state, vote-kind descriptor, and the
/// voting window anchor.
#[derive(Clone, Debug)]
pub struct Proposal {
    /// Reference to the owning token owner's identity.
    pub token_owner: Pubkey,
    /// The mint whose holders vote on this proposal.
    pub governing_token_mint: Pubkey,
    pub state: ProposalState,
    pub vote_kind: VoteKind,
    /// The ordered option list; each holds a vote-weight accumulator.
    pub options: Vec<ProposalOption>,
    /// The deny accumulator; None when the proposal offers no deny path.
    pub deny_vote_weight: Option<u64>,
    /// When the proposal entered the Voting state (seconds).
    pub voting_at: i64,
    /// When the proposal tipped, once it has.
    pub voting_completed_at: Option<i64>,
}

/// The deny tally, zero when the proposal offers no deny path.
pub open spec fn deny_or_zero(deny_vote_weight: Option<u64>) -> u64 {
    match deny_vote_weight {
        Some(w) => w,
        None => 0u64,
    }
}

/// The smaller of two lengths.
pub open spec fn min_len(a: int, b: int) -> int {
    if a <= b {
        a
    } else {
        b
    }
}

/// The sum of all option accumulators.
pub open spec fn options_total(options: Seq<ProposalOption>) -> int
    decreases options.len(),
{
    if options.len() == 0 {
        0
    } else {
        options_total(options.drop_last()) + options.last().vote_weight
    }
}

/// The option list after an Approve vote: each option paired with a choice
/// entry gains that entry's weight; options beyond the choice list are
/// untouched.
pub open spec fn tally_after_approve(
    options: Seq<ProposalOption>,
    choices: Seq<VoteChoice>,
    voter_weight: u64,
) -> Seq<ProposalOption> {
    Seq::new(
        options.len(),
        |i: int|
            if i < choices.len() {
                ProposalOption {
                    vote_weight: (options[i].vote_weight + choice_weight(choices[i], voter_weight)) as u64,
                }
            } else {
                options[i]
            },
    )
}

/// Some paired option accumulator cannot take its choice's weight.
pub open spec fn approve_overflows(
    options: Seq<ProposalOption>,
    choices: Seq<VoteChoice>,
    voter_weight: u64,
) -> bool {
    exists|i: int|
        0 <= i < min_len(options.len() as int, choices.len() as int) && options[i].vote_weight
            + choice_weight(choices[i], voter_weight) > u64::MAX
}

/// The total weight a vote adds to the tallies: the voter's weight once per
/// selected option for Approve, once for Deny, nothing otherwise.
pub open spec fn applied_total(vote: Vote, voter_weight: u64, options_len: int) -> int {
    match vote {
        Vote::Approve(choices) => selected_count(
            choices@.take(min_len(options_len, choices@.len() as int)),
        ) * voter_weight,
        Vote::Deny => voter_weight as int,
        Vote::Abstain => 0,
        Vote::Veto => 0,
    }
}

/// A vote never takes weight away from the tallies.
pub proof fn lemma_applied_total_nonneg(vote: Vote, voter_weight: u64, options_len: int)
    requires
        options_len >= 0,
    ensures
        applied_total(vote, voter_weight, options_len) >= 0,
{
    match vote {
        Vote::Approve(choices) => {
            let prefix = choices@.take(min_len(options_len, choices@.len() as int));
            crate::vote::lemma_selected_count_nonneg(prefix);
            assert(selected_count(prefix) * voter_weight >= 0) by (nonlinear_arith)
                requires
                    selected_count(prefix) >= 0,
                    voter_weight >= 0,
            ;
        },
        Vote::Deny => {
        },
        Vote::Abstain => {
        },
        Vote::Veto => {
        },
    }
}

/// The sum of a sequence of applied weights.
pub open spec fn sum_ints(weights: Seq<int>) -> int
    decreases weights.len(),
{
    if weights.len() == 0 {
        0
    } else {
        sum_ints(weights.drop_last()) + weights.last()
    }
}

/// Monotonic tally: across successive successful casts, each of which raises
/// the combined tally total by the nonnegative weight it applied, the total
/// never decreases, and the final total equals the starting total plus the
/// sum of every weight applied so far.
pub proof fn lemma_tally_monotonic(totals: Seq<int>, applied: Seq<int>)
    requires
        totals.len() == applied.len() + 1,
        forall|i: int| 0 <= i < applied.len() ==> applied[i] >= 0,
        forall|i: int| 0 <= i < applied.len() ==> totals[i + 1] == totals[i] + applied[i],
    ensures
        totals.last() == totals[0] + sum_ints(applied),
        forall|i: int, j: int| 0 <= i <= j < totals.len() ==> totals[i] <= totals[j],
    decreases applied.len(),
{
    if applied.len() == 0 {
    } else {
        let shorter = totals.drop_last();
        let fewer = applied.drop_last();
        assert forall|i: int| 0 <= i < fewer.len() implies shorter[i + 1] == shorter[i]
            + fewer[i] by {
            assert(shorter[i + 1] == totals[i + 1] && shorter[i] == totals[i] && fewer[i]
                == applied[i]);
        }
        lemma_tally_monotonic(shorter, fewer);
        assert(totals.last() == totals[totals.len() - 2] + applied.last());
        assert(shorter.last() == totals[totals.len() - 2]);
        assert forall|i: int, j: int| 0 <= i <= j < totals.len() implies totals[i] <= totals[j] by {
            if j < totals.len() - 1 {
                assert(shorter[i] == totals[i] && shorter[j] == totals[j]);
                assert(shorter[i] <= shorter[j]);
            } else if i < totals.len() - 1 {
                assert(shorter[i] == totals[i]);
                assert(shorter[i] <= shorter[shorter.len() - 1]);
                assert(applied.last() >= 0);
            }
        }
    }
}

/// An Approve vote raises the sum of the option accumulators by the voter's
/// weight once per selected paired choice.
pub proof fn lemma_tally_after_approve_total(
    options: Seq<ProposalOption>,
    choices: Seq<VoteChoice>,
    voter_weight: u64,
)
    requires
        !approve_overflows(options, choices, voter_weight),
    ensures
        options_total(tally_after_approve(options, choices, voter_weight)) == options_total(options)
            + selected_count(choices.take(min_len(options.len() as int, choices.len() as int)))
            * voter_weight,
    decreases options.len(),
{
    let applied = tally_after_approve(options, choices, voter_weight);
    if options.len() == 0 {
        assert(applied =~= Seq::<ProposalOption>::empty());
        assert(choices.take(0) =~= Seq::<VoteChoice>::empty());
        assert(selected_count(choices.take(0)) == 0);
    } else {
        let rest = options.drop_last();
        let n = options.len() as int;
        assert forall|i: int|
            0 <= i < min_len(rest.len() as int, choices.len() as int) implies rest[i].vote_weight
            + choice_weight(choices[i], voter_weight) <= u64::MAX by {
            assert(rest[i] == options[i]);
            assert(!(options[i].vote_weight + choice_weight(choices[i], voter_weight) > u64::MAX));
        }
        lemma_tally_after_approve_total(rest, choices, voter_weight);
        assert(applied.drop_last() =~= tally_after_approve(rest, choices, voter_weight));
        if n <= choices.len() {
            let prefix = choices.take(n - 1);
            assert(choices.take(n) =~= prefix.push(choices[n - 1]));
            lemma_selected_count_push(prefix, choices[n - 1]);
            assert(applied.last().vote_weight == options.last().vote_weight + choice_weight(
                choices[n - 1],
                voter_weight,
            ));
            assert(options_total(applied) == options_total(applied.drop_last())
                + applied.last().vote_weight);
            assert(selected_count(choices.take(n)) * voter_weight == selected_count(prefix)
                * voter_weight + (if choices[n - 1].weight_percentage == 100 {
                1int
            } else {
                0int
            }) * voter_weight) by (nonlinear_arith)
                requires
                    selected_count(choices.take(n)) == selected_count(prefix) + (if choices[n
                        - 1].weight_percentage == 100 {
                        1int
                    } else {
                        0int
                    }),
            ;
        } else {
            assert(min_len(n, choices.len() as int) == min_len(
                rest.len() as int,
                choices.len() as int,
            ));
            assert(applied.last() == options.last());
        }
    }
}

impl Proposal {
    /// The sum of all option accumulators plus the deny accumulator.
    pub open spec fn tally_total(self) -> int {
        options_total(self.options@) + deny_or_zero(self.deny_vote_weight)
    }

    /// `now` lies inside the configured voting window.
    pub open spec fn in_voting_window(self, config: GovernanceConfig, now: i64) -> bool {
        self.voting_at <= now && now as int <= self.voting_at as int + config.max_voting_time as int
    }

    /// Casting is accepted: the proposal is in the Voting state and `now`
    /// lies inside the configured window.
    pub open spec fn can_cast_vote(self, config: GovernanceConfig, now: i64) -> bool {
        self.state is Voting && self.in_voting_window(config, now)
    }

    /// The instruction queue may still be edited: the proposal sits in a
    /// stage before sign-off completes.
    pub open spec fn can_edit_instructions(self) -> bool {
        self.state is Draft || self.state is SigningOff
    }

    /// The vote's shape matches this proposal's configured kind. Abstain and
    /// Veto are well-shaped here; applying them is what is rejected.
    pub open spec fn vote_is_valid(self, vote: Vote) -> bool {
        match vote {
            Vote::Approve(choices) => {
                &&& choices@.len() == self.options@.len()
                &&& forall|i: int| 0 <= i < choices@.len() ==> choice_is_valid(choices@[i])
                &&& selected_count(choices@) >= 1
                &&& (self.vote_kind is SingleChoice ==> selected_count(choices@) == 1)
            },
            Vote::Deny => self.deny_vote_weight is Some,
            Vote::Abstain => true,
            Vote::Veto => true,
        }
    }

    /// Why applying this vote fails, or None when it applies cleanly:
    /// Abstain and Veto are deliberately rejected, a deny vote needs a deny
    /// path, badly shaped choice entries are invalid, and an accumulator
    /// overflow is fatal.
    pub open spec fn apply_vote_error(self, vote: Vote, voter_weight: u64) -> Option<
        GovernanceError,
    > {
        match vote {
            Vote::Abstain => Some(GovernanceError::NotSupportedVoteType),
            Vote::Veto => Some(GovernanceError::NotSupportedVoteType),
            Vote::Approve(choices) => {
                if !(forall|i: int|
                    0 <= i < min_len(self.options@.len() as int, choices@.len() as int)
                        ==> choice_is_valid(choices@[i])) {
                    Some(GovernanceError::InvalidVoteType)
                } else if approve_overflows(self.options@, choices@, voter_weight) {
                    Some(GovernanceError::ArithmeticOverflow)
                } else {
                    None
                }
            },
            Vote::Deny => {
                match self.deny_vote_weight {
                    None => Some(GovernanceError::InvalidVoteType),
                    Some(d) => if d + voter_weight > u64::MAX {
                        Some(GovernanceError::ArithmeticOverflow)
                    } else {
                        None
                    },
                }
            },
        }
    }

    /// Everything but the two tallies agrees between the two proposals.
    pub open spec fn same_except_tallies(self, other: Proposal) -> bool {
        &&& self.token_owner == other.token_owner
        &&& self.governing_token_mint == other.governing_token_mint
        &&& self.state == other.state
        &&& self.vote_kind == other.vote_kind
        &&& self.voting_at == other.voting_at
        &&& self.voting_completed_at == other.voting_completed_at
    }

    /// The proposal after tipping to the decision's terminal outcome.
    pub open spec fn with_tipped(self, d: TipDecision, now: i64) -> Proposal {
        Proposal {
            state: if d is Approve {
                ProposalState::Succeeded
            } else {
                ProposalState::Defeated
            },
            voting_completed_at: Some(now),
            ..self
        }
    }

    /// Fails InvalidState unless the proposal is in the Voting state and
    /// `now` lies inside the configured window.
    pub fn assert_can_cast_vote(&self, config: &GovernanceConfig, now: i64) -> (r: Result<
        (),
        GovernanceError,
    >)
        ensures
            r is Ok <==> self.can_cast_vote(*config, now),
            r is Err ==> r->Err_0 == GovernanceError::InvalidState,
    {
        let is_voting = match self.state {
            ProposalState::Voting => true,
            _ => false,
        };
        if !is_voting {
            return Err(GovernanceError::InvalidState);
        }
        if now < self.voting_at {
            return Err(GovernanceError::InvalidState);
        }
        if (now as i128) > (self.voting_at as i128) + (config.max_voting_time as i128) {
            return Err(GovernanceError::InvalidState);
        }
        Ok(())
    }

    /// Fails InvalidState unless the proposal is still in an
    /// instruction-editable lifecycle stage.
    pub fn assert_can_edit_instructions(&self) -> (r: Result<(), GovernanceError>)
        ensures
            r is Ok <==> self.can_edit_instructions(),
            r is Err ==> r->Err_0 == GovernanceError::InvalidState,
    {
        match self.state {
            ProposalState::Draft => Ok(()),
            ProposalState::SigningOff => Ok(()),
            _ => Err(GovernanceError::InvalidState),
        }
    }

    /// Fails InvalidVoteType unless the vote's shape matches this proposal's
    /// configured kind: an Approve vote needs one well-formed choice entry
    /// per option, at least one selection, and exactly one under a
    /// single-choice kind; a Deny vote needs a deny path.
    #[verifier::loop_isolation(false)]
    pub fn assert_valid_vote(&self, vote: &Vote) -> (r: Result<(), GovernanceError>)
        ensures
            r is Ok <==> self.vote_is_valid(*vote),
            r is Err ==> r->Err_0 == GovernanceError::InvalidVoteType,
    {
        match vote {
            Vote::Approve(choices) => {
                if choices.len() != self.options.len() {
                    return Err(GovernanceError::InvalidVoteType);
                }
                let mut selected: usize = 0;
                let mut i: usize = 0;
                while i < choices.len()
                    invariant
                        0 <= i <= choices@.len(),
                        selected <= i,
                        selected as int == selected_count(choices@.take(i as int)),
                        forall|j: int| 0 <= j < i ==> choice_is_valid(choices@[j]),
                    decreases choices@.len() - i,
                {
                    let pct = choices[i].weight_percentage;
                    if pct != 0 && pct != 100 {
                        return Err(GovernanceError::InvalidVoteType);
                    }
                    proof {
                        lemma_selected_count_push(choices@.take(i as int), choices@[i as int]);
                        assert(choices@.take(i as int + 1) =~= choices@.take(i as int).push(
                            choices@[i as int],
                        ));
                    }
                    if pct == 100 {
                        selected = selected + 1;
                    }
                    i = i + 1;
                }
                proof {
                    assert(choices@.take(choices@.len() as int) =~= choices@);
                }
                if selected == 0 {
                    return Err(GovernanceError::InvalidVoteType);
                }
                let single = match self.vote_kind {
                    VoteKind::SingleChoice => true,
                    _ => false,
                };
                if single && selected != 1 {
                    return Err(GovernanceError::InvalidVoteType);
                }
                Ok(())
            },
            Vote::Deny => {
                match self.deny_vote_weight {
                    Some(_) => Ok(()),
                    None => Err(GovernanceError::InvalidVoteType),
                }
            },
            Vote::Abstain => Ok(()),
            Vote::Veto => Ok(()),
        }
    }

    /// Applies a vote to the tallies: an Approve vote adds the same
    /// snapshotted weight to each selected option's accumulator, never
    /// divided among choices; a Deny vote adds it to the deny accumulator.
    /// Abstain and Veto are deliberately rejected. Any failure leaves the
    /// proposal untouched.
    #[verifier::loop_isolation(false)]
    pub fn apply_vote(&mut self, vote: &Vote, voter_weight: u64) -> (r: Result<
        (),
        GovernanceError,
    >)
        ensures
            r is Ok <==> old(self).apply_vote_error(*vote, voter_weight) is None,
            r is Err ==> Some(r->Err_0) == old(self).apply_vote_error(*vote, voter_weight)
                && *final(self) == *old(self),
            r is Ok ==> final(self).same_except_tallies(*old(self)),
            r is Ok ==> final(self).tally_total() == old(self).tally_total() + applied_total(
                *vote,
                voter_weight,
                old(self).options@.len() as int,
            ),
            r is Ok ==> (*vote matches Vote::Approve(choices) ==> final(self).options@
                == tally_after_approve(old(self).options@, choices@, voter_weight)
                && final(self).deny_vote_weight == old(self).deny_vote_weight),
            (r is Ok && *vote is Deny) ==> ({
                &&& final(self).options@ == old(self).options@
                &&& final(self).deny_vote_weight == Some(
                    (deny_or_zero(old(self).deny_vote_weight) + voter_weight) as u64,
                )
            }),
    {
        match vote {
            Vote::Abstain => Err(GovernanceError::NotSupportedVoteType),
            Vote::Veto => Err(GovernanceError::NotSupportedVoteType),
            Vote::Deny => {
                match self.deny_vote_weight {
                    None => Err(GovernanceError::InvalidVoteType),
                    Some(d) => {
                        if voter_weight > u64::MAX - d {
                            Err(GovernanceError::ArithmeticOverflow)
                        } else {
                            self.deny_vote_weight = Some(d + voter_weight);
                            Ok(())
                        }
                    },
                }
            },
            Vote::Approve(choices) => {
                let n = if self.options.len() <= choices.len() {
                    self.options.len()
                } else {
                    choices.len()
                };
                let mut i: usize = 0;
                while i < n
                    invariant
                        0 <= i <= n,
                        n == min_len(self.options@.len() as int, choices@.len() as int),
                        forall|j: int| 0 <= j < i ==> choice_is_valid(choices@[j]),
                    decreases n - i,
                {
                    let pct = choices[i].weight_percentage;
                    if pct != 0 && pct != 100 {
                        return Err(GovernanceError::InvalidVoteType);
                    }
                    i = i + 1;
                }
                let mut i: usize = 0;
                while i < n
                    invariant
                        0 <= i <= n,
                        n == min_len(self.options@.len() as int, choices@.len() as int),
                        forall|j: int|
                            0 <= j < i ==> self.options@[j].vote_weight + choice_weight(
                                choices@[j],
                                voter_weight,
                            ) <= u64::MAX,
                    decreases n - i,
                {
                    let cw = if choices[i].weight_percentage == 100 {
                        voter_weight
                    } else {
                        0u64
                    };
                    if cw > u64::MAX - self.options[i].vote_weight {
                        return Err(GovernanceError::ArithmeticOverflow);
                    }
                    i = i + 1;
                }
                let ghost old_options = self.options@;
                let mut updated: Vec<ProposalOption> = Vec::new();
                let mut i: usize = 0;
                while i < self.options.len()
                    invariant
                        0 <= i <= self.options@.len(),
                        self.options@ == old_options,
                        n == min_len(self.options@.len() as int, choices@.len() as int),
                        forall|j: int|
                            0 <= j < n ==> old_options[j].vote_weight + choice_weight(
                                choices@[j],
                                voter_weight,
                            ) <= u64::MAX,
                        updated@.len() == i,
                        forall|j: int|
                            0 <= j < i ==> updated@[j] == tally_after_approve(
                                old_options,
                                choices@,
                                voter_weight,
                            )[j],
                    decreases self.options@.len() - i,
                {
                    if i < choices.len() {
                        let cw = if choices[i].weight_percentage == 100 {
                            voter_weight
                        } else {
                            0u64
                        };
                        updated.push(ProposalOption { vote_weight: self.options[i].vote_weight + cw });
                    } else {
                        updated.push(ProposalOption { vote_weight: self.options[i].vote_weight });
                    }
                    i = i + 1;
                }
                proof {
                    assert(updated@ =~= tally_after_approve(old_options, choices@, voter_weight));
                    lemma_tally_after_approve_total(old_options, choices@, voter_weight);
                }
                self.options = updated;
                Ok(())
            },
        }
    }

    /// Evaluates the injected pass/fail predicate against the current
    /// tallies and the maximum possible voter weight. On satisfaction the
    /// proposal transitions to the corresponding terminal outcome, records
    /// when voting completed, and the call returns true so the caller can
    /// apply the one-time side effects; otherwise nothing changes.
    pub fn try_tip_vote<P: TipPolicy>(
        &mut self,
        tip_policy: &P,
        max_voter_weight: u64,
        now: i64,
    ) -> (tipped: bool)
        ensures
            ({
                let d = tip_policy.decision(
                    option_weights(old(self).options@),
                    deny_or_zero(old(self).deny_vote_weight),
                    max_voter_weight,
                );
                &&& tipped == (old(self).state is Voting && !(d is NoTip))
                &&& tipped ==> *final(self) == old(self).with_tipped(d, now)
                &&& !tipped ==> *final(self) == *old(self)
            }),
    {
        let is_voting = match self.state {
            ProposalState::Voting => true,
            _ => false,
        };
        if !is_voting {
            return false;
        }
        let deny_weight = match self.deny_vote_weight {
            Some(d) => d,
            None => 0u64,
        };
        let d = tip_policy.decide(&self.options, deny_weight, max_voter_weight);
        match d {
            TipDecision::NoTip => false,
            TipDecision::Approve => {
                self.state = ProposalState::Succeeded;
                self.voting_completed_at = Some(now);
                true
            },
            TipDecision::Deny => {
                self.state = ProposalState::Defeated;
                self.voting_completed_at = Some(now);
                true
            },
        }
    }
}

} // verus!
