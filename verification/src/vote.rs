use vstd::prelude::*;

verus! {

/// The vote shapes a proposal can be configured to accept.
#[derive(Clone, Copy, PartialEq, Eq, Structural, Debug)]
pub enum VoteKind {
    /// Exactly one option may be selected.
    SingleChoice,
    /// Several options may be selected at once.
    MultiChoice,
}

/// One per-option entry of an Approve vote: either the voter's full weight
/// goes to the option (100) or none of it does (0). The same snapshotted
/// weight is applied to every selected option, never divided among them.
#[derive(Clone, Copy, PartialEq, Eq, Structural, Debug)]
pub struct VoteChoice {
    pub weight_percentage: u8,
}

/// A cast vote value. Only Approve and Deny are supported by this core;
/// Abstain and Veto are recognised but deliberately rejected — a policy
/// restriction, not a structural one.
#[derive(Debug)]
pub enum Vote {
    /// One choice entry per proposal option, in option order.
    Approve(Vec<VoteChoice>),
    Deny,
    Abstain,
    Veto,
}

/// A choice entry carries either the full weight or nothing.
pub open spec fn choice_is_valid(c: VoteChoice) -> bool {
    c.weight_percentage == 0 || c.weight_percentage == 100
}

/// The weight a single choice entry contributes to its option.
pub open spec fn choice_weight(c: VoteChoice, voter_weight: u64) -> u64 {
    if c.weight_percentage == 100 {
        voter_weight
    } else {
        0u64
    }
}

/// How many choice entries of the sequence select their option.
pub open spec fn selected_count(choices: Seq<VoteChoice>) -> int
    decreases choices.len(),
{
    if choices.len() == 0 {
        0
    } else {
        selected_count(choices.drop_last()) + if choices.last().weight_percentage == 100 {
            1int
        } else {
            0int
        }
    }
}

/// A selected count is never negative.
pub proof fn lemma_selected_count_nonneg(choices: Seq<VoteChoice>)
    ensures
        selected_count(choices) >= 0,
    decreases choices.len(),
{
    if choices.len() > 0 {
        lemma_selected_count_nonneg(choices.drop_last());
    }
}

/// Appending one choice entry grows the selected count by one exactly when
/// the entry selects its option.
pub proof fn lemma_selected_count_push(choices: Seq<VoteChoice>, c: VoteChoice)
    ensures
        selected_count(choices.push(c)) == selected_count(choices) + if c.weight_percentage
            == 100 {
            1int
        } else {
            0int
        },
{
    assert(choices.push(c).drop_last() =~= choices);
}

} // verus!
