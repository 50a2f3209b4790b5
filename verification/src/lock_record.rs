//! The durable record of one escrow.

use vstd::prelude::*;

use crate::authority;
use crate::authority::Address;
use crate::token_account::TokenAccount;

verus! {

/// One escrow: who locked which asset, how much of it is still locked, and
/// when it unlocks. A record lives at the address derived from
/// (owner, mint, id), and its vault at the vault address derived from the
/// same key; the record itself is the vault's signing authority.
#[derive(Clone, Copy, Debug, PartialEq, Eq, Structural)]
pub struct LockRecord {
    /// Disambiguation value fixed at creation so that later operations can
    /// reconstruct the identical signing context.
    pub bump: u8,
    /// The identity permitted to withdraw, burn from the lock, and close.
    pub owner: u64,
    /// The asset held.
    pub mint: u64,
    /// The address of the custodial balance holding the locked tokens.
    pub vault: Address,
    /// The currently locked balance, not yet withdrawn or burned.
    pub amount: u64,
    /// Withdrawal is disallowed strictly before this instant
    /// (seconds since the epoch).
    pub unlock_timestamp: i64,
    /// Caller-chosen discriminator, so one owner can hold several
    /// independent locks per asset.
    pub id: u64,
}

impl LockRecord {
    /// Well-formedness: the stored vault address is exactly the one derived
    /// from the record's own key. Creation establishes this and every
    /// operation preserves it.
    pub open spec fn wf(self) -> bool {
        self.vault == authority::vault_address(self.owner, self.mint, self.id)
    }

    /// The durable-store invariant tying a record to its vault: the vault
    /// really is this record's vault (right address, right authority, right
    /// mint) and its spendable balance equals the locked amount. Withheld
    /// fees sit outside the spendable balance, so equality holds even while
    /// fees are withheld.
    pub open spec fn vault_consistent(self, vault: TokenAccount) -> bool {
        &&& vault.address == self.vault
        &&& vault.owner == authority::vault_authority(self.owner, self.mint, self.id)
        &&& vault.mint == self.mint
        &&& vault.amount == self.amount
    }
}

} // verus!
