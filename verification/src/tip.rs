use vstd::prelude::*;

use crate::proposal::ProposalOption;

verus! {

/// What the injected pass/fail predicate says of the current tallies.
#[derive(Clone, Copy, PartialEq, Eq, Structural, Debug)]
pub enum TipDecision {
    /// The tallies do not yet settle the outcome; keep voting.
    NoTip,
    /// The tallies already settle the outcome in favour of the proposal.
    Approve,
    /// The tallies already settle the outcome against the proposal.
    Deny,
}

/// The option tallies as bare weights.
pub open spec fn option_weights(options: Seq<ProposalOption>) -> Seq<u64> {
    options.map(|i: int, o: ProposalOption| o.vote_weight)
}

/// The largest weight in the sequence, zero when it is empty.
pub open spec fn seq_max(s: Seq<u64>) -> u64
    decreases s.len(),
{
    if s.len() == 0 {
        0u64
    } else {
        let m = seq_max(s.drop_last());
        if s.last() > m {
            s.last()
        } else {
            m
        }
    }
}

/// Appending a weight keeps the maximum, or raises it to the new weight.
pub proof fn lemma_seq_max_push(s: Seq<u64>, v: u64)
    ensures
        seq_max(s.push(v)) == if v > seq_max(s) {
            v
        } else {
            seq_max(s)
        },
{
    assert(s.push(v).drop_last() =~= s);
}

/// The governance's pass/fail predicate over current tallies and the maximum
/// possible voter weight. The exact threshold formula belongs to the
/// surrounding governance configuration, so it is injected here rather than
/// hard-coded: tipping is verified against whatever decision the policy gives.
pub trait TipPolicy: Sized {
    /// The decision over the option tallies, the deny tally, and the maximum
    /// possible voter weight.
    spec fn decision(&self, weights: Seq<u64>, deny_weight: u64, max_voter_weight: u64) -> TipDecision;

    /// Evaluates the decision on concrete tallies.
    fn decide(&self, options: &Vec<ProposalOption>, deny_weight: u64, max_voter_weight: u64) -> (d:
        TipDecision)
        ensures
            d == self.decision(option_weights(options@), deny_weight, max_voter_weight),
    ;
}

/// A threshold policy: a side wins as soon as its weight reaches
/// numerator/denominator of the maximum possible voter weight. The leading
/// option approves the proposal when it also strictly exceeds the deny
/// tally; otherwise a qualifying deny tally defeats it.
#[derive(Clone, Copy, PartialEq, Eq, Structural, Debug)]
pub struct FractionThreshold {
    pub numerator: u64,
    pub denominator: u64,
}

/// The product of two values below 2^64 fits in a u128.
proof fn lemma_u64_product_fits(a: int, b: int)
    requires
        0 <= a < 0x1_0000_0000_0000_0000,
        0 <= b < 0x1_0000_0000_0000_0000,
    ensures
        0 <= a * b <= 0xffff_ffff_ffff_ffff_ffff_ffff_ffff_ffff,
{
    assert(a * b <= 0xffff_ffff_ffff_ffff_ffff_ffff_ffff_ffff) by (nonlinear_arith)
        requires
            0 <= a < 0x1_0000_0000_0000_0000,
            0 <= b < 0x1_0000_0000_0000_0000,
    ;
    assert(0 <= a * b) by (nonlinear_arith)
        requires
            0 <= a,
            0 <= b,
    ;
}

impl TipPolicy for FractionThreshold {
    open spec fn decision(&self, weights: Seq<u64>, deny_weight: u64, max_voter_weight: u64) -> TipDecision {
        let top = seq_max(weights);
        if top * self.denominator >= max_voter_weight * self.numerator && top > deny_weight {
            TipDecision::Approve
        } else if deny_weight * self.denominator >= max_voter_weight * self.numerator {
            TipDecision::Deny
        } else {
            TipDecision::NoTip
        }
    }

    fn decide(&self, options: &Vec<ProposalOption>, deny_weight: u64, max_voter_weight: u64) -> (d:
        TipDecision) {
        let ghost weights = option_weights(options@);
        let mut top: u64 = 0;
        let mut i: usize = 0;
        while i < options.len()
            invariant
                0 <= i <= options@.len(),
                weights == option_weights(options@),
                top == seq_max(weights.take(i as int)),
            decreases options@.len() - i,
        {
            proof {
                lemma_seq_max_push(weights.take(i as int), weights[i as int]);
                assert(weights.take(i as int + 1) =~= weights.take(i as int).push(
                    weights[i as int],
                ));
            }
            if options[i].vote_weight > top {
                top = options[i].vote_weight;
            }
            i = i + 1;
        }
        proof {
            assert(weights.take(weights.len() as int) =~= weights);
            lemma_u64_product_fits(top as int, self.denominator as int);
            lemma_u64_product_fits(deny_weight as int, self.denominator as int);
            lemma_u64_product_fits(max_voter_weight as int, self.numerator as int);
        }
        let required: u128 = (max_voter_weight as u128) * (self.numerator as u128);
        let top_scaled: u128 = (top as u128) * (self.denominator as u128);
        let deny_scaled: u128 = (deny_weight as u128) * (self.denominator as u128);
        if top_scaled >= required && top > deny_weight {
            TipDecision::Approve
        } else if deny_scaled >= required {
            TipDecision::Deny
        } else {
            TipDecision::NoTip
        }
    }
}

} // verus!
