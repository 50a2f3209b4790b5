//! BurnBatch: destroy tokens from several accounts in one operation.
//!
//! Independent of the lock record store. The account list interleaves one
//! mint and one source account per entry, so it must be exactly twice as
//! long as the amount list. The platform applies the whole batch
//! atomically: if any entry fails validation, nothing is applied.

use vstd::prelude::*;

use crate::errors::LockerError;
use crate::events::BatchTokensBurned;

verus! {

/// The single caller all batch entries burn under.
#[derive(Clone, Copy, Debug, PartialEq, Eq, Structural)]
pub struct BurnBatch {
    pub burner: u64,
}

/// The mints named by an interleaved account list: the accounts at even
/// positions, one per entry.
pub open spec fn batch_mints(accounts: Seq<u64>, entries: nat) -> Seq<u64> {
    Seq::new(entries, |i: int| accounts[2 * i])
}

/// Burns each `amounts[i]` from the account pair
/// (`remaining_accounts[2i]`, `remaining_accounts[2i + 1]`) — mint and
/// source — under the one caller's authority, and reports a single
/// aggregate notification naming every mint and amount.
///
/// The account list must be exactly twice as long as the amount list
/// (`InvalidBatchAccounts`) and every amount must be nonzero (`ZeroAmount`);
/// any failure leaves every balance untouched.
pub fn handle_burn_batch(
    ctx: BurnBatch,
    remaining_accounts: Vec<u64>,
    amounts: Vec<u64>,
) -> (r: Result<BatchTokensBurned, LockerError>)
    ensures
        remaining_accounts@.len() != amounts@.len() * 2 ==> r == Err::<
            BatchTokensBurned,
            LockerError,
        >(LockerError::InvalidBatchAccounts),
        remaining_accounts@.len() == amounts@.len() * 2 && (exists|i: int|
            0 <= i < amounts@.len() && amounts@[i] == 0) ==> r == Err::<
            BatchTokensBurned,
            LockerError,
        >(LockerError::ZeroAmount),
        remaining_accounts@.len() == amounts@.len() * 2 && (forall|i: int|
            0 <= i < amounts@.len() ==> amounts@[i] != 0) ==> ({
            &&& r is Ok
            &&& r->Ok_0.burner == ctx.burner
            &&& r->Ok_0.amounts@ == amounts@
            &&& r->Ok_0.mints@ == batch_mints(remaining_accounts@, amounts@.len())
        }),
{
    // Each entry needs a mint and a source account: two accounts per amount.
    let total: usize = remaining_accounts.len();
    if total % 2 != 0 || amounts.len() != total / 2 {
        return Err(LockerError::InvalidBatchAccounts);
    }

    let mut burned_mints: Vec<u64> = Vec::new();
    let entries = amounts.len();
    for i in 0..entries
        invariant
            entries == amounts@.len(),
            remaining_accounts@.len() == entries * 2,
            remaining_accounts@.len() <= usize::MAX,
            burned_mints@.len() == i,
            forall|j: int| 0 <= j < i ==> burned_mints@[j] == remaining_accounts@[2 * j],
            forall|j: int| 0 <= j < i ==> amounts@[j] != 0,
    {
        if amounts[i] == 0 {
            return Err(LockerError::ZeroAmount);
        }
        // The ledger destroys amounts[i] from the source account at
        // 2i + 1, out of the mint at 2i.
        burned_mints.push(remaining_accounts[i * 2]);
    }

    let event = BatchTokensBurned { burner: ctx.burner, mints: burned_mints, amounts };
    proof {
        assert(event.mints@ =~= batch_mints(remaining_accounts@, event.amounts@.len()));
    }
    Ok(event)
}

} // verus!
