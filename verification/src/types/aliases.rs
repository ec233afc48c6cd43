use vstd::prelude::*;

verus! {

/// An account of the host, already authenticated when it reaches the ledger.
pub type AccountId = u64;

/// An amount of the host's currency.
pub type Balance = u128;

} // verus!
