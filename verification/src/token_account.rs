//! The locker's view of a token balance held by the external ledger.

use vstd::prelude::*;

use crate::authority::Address;

verus! {

/// A snapshot of one token account as the external ledger reports it:
/// its address, the mint it holds, who may sign for it, its spendable
/// balance, and any transfer fees the ledger has withheld in it.
///
/// Withheld fees are not spendable and can only be removed by an external
/// harvest; the locker merely observes them through `has_withheld_fees`.
#[derive(Clone, Copy, Debug, PartialEq, Eq, Structural)]
pub struct TokenAccount {
    pub address: Address,
    pub mint: u64,
    pub owner: Address,
    pub amount: u64,
    pub withheld_amount: u64,
}

impl TokenAccount {
    /// Whether the ledger currently withholds uncollected transfer fees in
    /// this account. An account with withheld fees cannot be torn down until
    /// an external harvest clears them.
    pub open spec fn spec_has_withheld_fees(self) -> bool {
        self.withheld_amount > 0
    }

    /// Queries the fee-withholding state of this account snapshot.
    pub fn has_withheld_fees(&self) -> (r: bool)
        ensures
            r == self.spec_has_withheld_fees(),
    {
        self.withheld_amount > 0
    }
}

} // verus!
