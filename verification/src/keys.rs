use vstd::prelude::*;

verus! {

/// An account address in the surrounding storage environment, modeled as an
/// opaque identity that the governance logic only ever compares for equality.
#[derive(Clone, Copy, PartialEq, Eq, Structural, Debug)]
pub struct Pubkey {
    pub value: u64,
}

} // verus!
