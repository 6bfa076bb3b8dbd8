use spl_governance::proposal::ProposalOption;
use spl_governance::tip::{FractionThreshold, TipDecision, TipPolicy};

fn options(weights: &[u64]) -> Vec<ProposalOption> {
    weights.iter().map(|&w| ProposalOption { vote_weight: w }).collect()
}

fn majority() -> FractionThreshold {
    FractionThreshold { numerator: 1, denominator: 2 }
}

// Exact threshold arithmetic: the leading option approves once it reaches
// the fraction of the maximum weight and strictly exceeds the deny tally.
#[test]
fn approve_threshold_exact() {
    let p = majority();
    assert_eq!(p.decide(&options(&[50]), 0, 100), TipDecision::Approve);
    assert_eq!(p.decide(&options(&[49]), 0, 100), TipDecision::NoTip);
    // The leading option counts, wherever it stands.
    assert_eq!(p.decide(&options(&[10, 60, 20]), 0, 100), TipDecision::Approve);
    // A leading option that does not beat the deny tally cannot approve,
    // and the deny tally at the threshold defeats instead.
    assert_eq!(p.decide(&options(&[50]), 50, 100), TipDecision::Deny);
}

#[test]
fn deny_threshold_exact() {
    let p = majority();
    assert_eq!(p.decide(&options(&[0]), 50, 100), TipDecision::Deny);
    assert_eq!(p.decide(&options(&[0]), 49, 100), TipDecision::NoTip);
}

// Large weights go through widened arithmetic without overflowing.
#[test]
fn large_weights_no_overflow() {
    let p = FractionThreshold { numerator: u64::MAX, denominator: u64::MAX };
    assert_eq!(p.decide(&options(&[u64::MAX]), 0, u64::MAX), TipDecision::Approve);
    assert_eq!(p.decide(&options(&[u64::MAX - 1]), 0, u64::MAX), TipDecision::NoTip);
    assert_eq!(p.decide(&options(&[0]), u64::MAX, u64::MAX), TipDecision::Deny);
}

// An empty option list leaves only the deny side in play.
#[test]
fn empty_option_list() {
    let p = majority();
    assert_eq!(p.decide(&options(&[]), 0, 100), TipDecision::NoTip);
    assert_eq!(p.decide(&options(&[]), 60, 100), TipDecision::Deny);
}
