//! Close: fee-aware teardown of a fully drained lock.
//!
//! This operation exists precisely to cover the case Withdraw leaves open: a
//! fully drained but fee-withheld vault, closable only after an external
//! harvest clears the withholding.

use vstd::prelude::*;

use crate::errors::LockerError;
use crate::lock_record::LockRecord;
use crate::token_account::TokenAccount;

verus! {

/// The snapshot a close runs against: the caller, the lock record loaded for
/// the caller-supplied key, its vault, and the asset.
#[derive(Clone, Copy, Debug, PartialEq, Eq, Structural)]
pub struct CloseVault {
    pub owner: u64,
    pub lock_record: LockRecord,
    pub vault: TokenAccount,
    pub token_mint: u64,
}

/// What a successful close commits: vault and record are destroyed together,
/// and the record's storage deposit goes to whom `rent_refunded_to` names —
/// always the stored owner.
#[derive(Clone, Copy, Debug, PartialEq, Eq, Structural)]
pub struct CloseOutcome {
    pub rent_refunded_to: u64,
}

/// The authentication a close re-derives: the record must be the one the
/// caller's (owner, mint, lock id) key derives, owned by the caller, and the
/// supplied vault must sit at the record's stored vault address.
pub open spec fn close_accounts_valid(ctx: CloseVault, lock_id: u64) -> bool {
    &&& ctx.lock_record.owner == ctx.owner
    &&& ctx.lock_record.mint == ctx.token_mint
    &&& ctx.lock_record.id == lock_id
    &&& ctx.vault.address == ctx.lock_record.vault
}

/// The whole close, as one transition on the snapshot: a record still
/// holding tokens cannot be closed (`ZeroAmount`, whatever the fee state),
/// a drained record with withheld fees must wait for the harvest
/// (`CannotCloseWithheldFees`), and otherwise vault and record are destroyed
/// with the deposit refunded to the stored owner.
pub open spec fn close_result(
    ctx: CloseVault,
    lock_id: u64,
) -> Result<CloseOutcome, LockerError> {
    if !close_accounts_valid(ctx, lock_id) {
        Err(LockerError::InvalidAuthority)
    } else if ctx.lock_record.amount != 0 {
        Err(LockerError::ZeroAmount)
    } else if ctx.vault.spec_has_withheld_fees() {
        Err(LockerError::CannotCloseWithheldFees)
    } else {
        Ok(CloseOutcome { rent_refunded_to: ctx.lock_record.owner })
    }
}

/// What a close may assume of durable state: the record is well formed, and
/// an account at the record's vault address is the record's vault,
/// consistent with it.
pub open spec fn close_pre(ctx: CloseVault) -> bool {
    &&& ctx.lock_record.wf()
    &&& ctx.vault.address == ctx.lock_record.vault ==> ctx.lock_record.vault_consistent(ctx.vault)
}

/// Closes a fully drained lock: destroys the vault and the record together
/// and refunds the record's storage deposit to the stored owner, never to
/// the caller if the caller is someone else — the authentication check
/// already refused such a caller.
pub fn handle_close_vault(ctx: CloseVault, lock_id: u64) -> (r: Result<
    CloseOutcome,
    LockerError,
>)
    requires
        close_pre(ctx),
    ensures
        r == close_result(ctx, lock_id),
        // Consistency makes the vault empty on success, so the ledger's
        // teardown of it cannot strand tokens.
        r is Ok ==> ctx.vault.amount == 0,
{
    if ctx.lock_record.owner != ctx.owner
        || ctx.lock_record.mint != ctx.token_mint
        || ctx.lock_record.id != lock_id
        || ctx.vault.address != ctx.lock_record.vault
    {
        return Err(LockerError::InvalidAuthority);
    }
    if ctx.lock_record.amount != 0 {
        return Err(LockerError::ZeroAmount);
    }
    if ctx.vault.has_withheld_fees() {
        return Err(LockerError::CannotCloseWithheldFees);
    }
    Ok(CloseOutcome { rent_refunded_to: ctx.lock_record.owner })
}

/// A lock still holding tokens can never be closed, whatever the fee state:
/// the answer is `ZeroAmount`, regardless of `withheld_amount`.
pub proof fn lemma_close_refuses_nonzero_balance(ctx: CloseVault, lock_id: u64)
    requires
        close_accounts_valid(ctx, lock_id),
        ctx.lock_record.amount > 0,
    ensures
        close_result(ctx, lock_id) == Err::<CloseOutcome, LockerError>(LockerError::ZeroAmount),
{
}

/// A drained lock with withheld fees fails `CannotCloseWithheldFees`; once
/// the withholding clears, the same close succeeds and destroys vault and
/// record, refunding the deposit to the stored owner.
pub proof fn lemma_close_gated_only_by_withheld_fees(ctx: CloseVault, lock_id: u64)
    requires
        close_accounts_valid(ctx, lock_id),
        ctx.lock_record.amount == 0,
    ensures
        ctx.vault.withheld_amount > 0 ==> close_result(ctx, lock_id) == Err::<
            CloseOutcome,
            LockerError,
        >(LockerError::CannotCloseWithheldFees),
        ctx.vault.withheld_amount == 0 ==> close_result(ctx, lock_id) == Ok::<
            CloseOutcome,
            LockerError,
        >(CloseOutcome { rent_refunded_to: ctx.lock_record.owner }),
{
}

} // verus!
