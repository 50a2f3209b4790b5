//! Create: open a new time lock and fund its vault.

use vstd::prelude::*;

use crate::authority;
use crate::errors::LockerError;
use crate::events::TokensLocked;
use crate::lock_record::LockRecord;
use crate::token_account::TokenAccount;

verus! {

/// The ceiling on how far in the future a lock may unlock: five years, in
/// seconds.
pub const MAX_LOCK_DURATION: i64 = 5 * 365 * 24 * 60 * 60;

/// The snapshot a creation runs against: the co-signing owner, the asset,
/// and the owner's account the deposit is paid from. The record and its
/// vault do not exist yet; the platform initializes an empty vault at the
/// derived address before the deposit moves.
#[derive(Clone, Copy, Debug, PartialEq, Eq, Structural)]
pub struct LockTokens {
    pub owner: u64,
    pub token_mint: u64,
    pub user_token_account: TokenAccount,
}

/// What a successful creation commits: the new record, the funded vault as
/// the ledger reports it after the deposit, the owner's debited account, and
/// the deposit notification.
#[derive(Clone, Copy, Debug, PartialEq, Eq, Structural)]
pub struct LockOutcome {
    pub lock_record: LockRecord,
    pub vault: TokenAccount,
    pub user_token_account: TokenAccount,
    pub event: TokensLocked,
}

/// Exactly which error a creation reports, in validation order; `None` when
/// it succeeds. `vault_balance_before` and `vault_balance_after` are the
/// vault balances the ledger reports around the deposit transfer.
pub open spec fn lock_error(
    ctx: LockTokens,
    amount: u64,
    unlock_timestamp: i64,
    now: i64,
    vault_balance_before: u64,
    vault_balance_after: u64,
) -> Option<LockerError> {
    if ctx.user_token_account.mint != ctx.token_mint {
        Some(LockerError::InvalidAuthority)
    } else if amount == 0 {
        Some(LockerError::ZeroAmount)
    } else if unlock_timestamp <= now {
        Some(LockerError::UnlockDateInPast)
    } else if unlock_timestamp - now > MAX_LOCK_DURATION {
        Some(LockerError::LockDurationTooLong)
    } else if amount > ctx.user_token_account.amount {
        Some(LockerError::InsufficientFunds)
    } else if vault_balance_after < vault_balance_before {
        Some(LockerError::MathOverflow)
    } else {
        None
    }
}

/// The state a successful creation commits. The locked amount is the delta
/// in vault balance observed across the deposit — what actually landed in
/// custody — never the raw requested amount, so a ledger that charges a
/// deposit fee can never make the record claim more than it holds.
pub open spec fn lock_outcome(
    ctx: LockTokens,
    amount: u64,
    unlock_timestamp: i64,
    lock_id: u64,
    bump: u8,
    vault_balance_before: u64,
    vault_balance_after: u64,
    vault_withheld_after: u64,
) -> LockOutcome {
    let actual_amount = (vault_balance_after - vault_balance_before) as u64;
    let lock_record = LockRecord {
        bump,
        owner: ctx.owner,
        mint: ctx.token_mint,
        vault: authority::vault_address(ctx.owner, ctx.token_mint, lock_id),
        amount: actual_amount,
        unlock_timestamp,
        id: lock_id,
    };
    LockOutcome {
        lock_record,
        vault: TokenAccount {
            address: authority::vault_address(ctx.owner, ctx.token_mint, lock_id),
            mint: ctx.token_mint,
            owner: authority::vault_authority(ctx.owner, ctx.token_mint, lock_id),
            amount: vault_balance_after,
            withheld_amount: vault_withheld_after,
        },
        user_token_account: TokenAccount {
            amount: (ctx.user_token_account.amount - amount) as u64,
            ..ctx.user_token_account
        },
        event: TokensLocked {
            owner: ctx.owner,
            mint: ctx.token_mint,
            amount: actual_amount,
            unlock_timestamp,
        },
    }
}

/// The whole creation, as one transition on the snapshot.
pub open spec fn lock_result(
    ctx: LockTokens,
    amount: u64,
    unlock_timestamp: i64,
    lock_id: u64,
    now: i64,
    bump: u8,
    vault_balance_before: u64,
    vault_balance_after: u64,
    vault_withheld_after: u64,
) -> Result<LockOutcome, LockerError> {
    match lock_error(ctx, amount, unlock_timestamp, now, vault_balance_before,
        vault_balance_after) {
        Some(e) => Err(e),
        None => Ok(lock_outcome(ctx, amount, unlock_timestamp, lock_id, bump,
            vault_balance_before, vault_balance_after, vault_withheld_after)),
    }
}

/// Validates a creation request before any tokens move: the amount must be
/// positive, the unlock instant strictly in the future, and the lock no
/// longer than the five-year ceiling. The platform runs this first, so a
/// rejected request never reaches the ledger.
pub fn validate_lock(amount: u64, unlock_timestamp: i64, now: i64) -> (r: Result<
    (),
    LockerError,
>)
    ensures
        r == (if amount == 0 {
            Err::<(), LockerError>(LockerError::ZeroAmount)
        } else if unlock_timestamp <= now {
            Err::<(), LockerError>(LockerError::UnlockDateInPast)
        } else if unlock_timestamp - now > MAX_LOCK_DURATION {
            Err::<(), LockerError>(LockerError::LockDurationTooLong)
        } else {
            Ok::<(), LockerError>(())
        }),
{
    if amount == 0 {
        return Err(LockerError::ZeroAmount);
    }
    if unlock_timestamp <= now {
        return Err(LockerError::UnlockDateInPast);
    }
    // The difference of two i64 instants can exceed i64; widen before
    // comparing against the ceiling.
    if (unlock_timestamp as i128) - (now as i128) > MAX_LOCK_DURATION as i128 {
        return Err(LockerError::LockDurationTooLong);
    }
    Ok(())
}

/// Creates a lock: re-validates the request, accounts for the deposit the
/// ledger performed (the owner pays `amount`; the vault balance moves from
/// `vault_balance_before` to `vault_balance_after`), and writes the new
/// record with exactly the observed vault delta as its locked balance.
/// The ledger refuses to move more than the owner's account holds; that
/// refusal surfaces as `InsufficientFunds`.
///
/// The record must not already exist for this (owner, mint, lock id) key;
/// the platform's record store refuses the creation before the deposit moves
/// if it does.
pub fn handle_lock_tokens(
    ctx: LockTokens,
    amount: u64,
    unlock_timestamp: i64,
    lock_id: u64,
    now: i64,
    bump: u8,
    vault_balance_before: u64,
    vault_balance_after: u64,
    vault_withheld_after: u64,
) -> (r: Result<LockOutcome, LockerError>)
    requires
        // The ledger cannot mint on transfer: the vault gains at most the
        // amount the owner paid in.
        vault_balance_after <= vault_balance_before + amount,
    ensures
        r == lock_result(ctx, amount, unlock_timestamp, lock_id, now, bump,
            vault_balance_before, vault_balance_after, vault_withheld_after),
{
    if ctx.user_token_account.mint != ctx.token_mint {
        return Err(LockerError::InvalidAuthority);
    }
    if let Err(e) = validate_lock(amount, unlock_timestamp, now) {
        return Err(e);
    }
    if amount > ctx.user_token_account.amount {
        return Err(LockerError::InsufficientFunds);
    }
    if vault_balance_after < vault_balance_before {
        return Err(LockerError::MathOverflow);
    }
    let actual_amount = vault_balance_after - vault_balance_before;

    let lock_record = LockRecord {
        bump,
        owner: ctx.owner,
        mint: ctx.token_mint,
        vault: authority::derive_vault_address(ctx.owner, ctx.token_mint, lock_id),
        amount: actual_amount,
        unlock_timestamp,
        id: lock_id,
    };
    Ok(LockOutcome {
        lock_record,
        vault: TokenAccount {
            address: authority::derive_vault_address(ctx.owner, ctx.token_mint, lock_id),
            mint: ctx.token_mint,
            owner: authority::derive_record_address(ctx.owner, ctx.token_mint, lock_id),
            amount: vault_balance_after,
            withheld_amount: vault_withheld_after,
        },
        user_token_account: TokenAccount {
            amount: ctx.user_token_account.amount - amount,
            ..ctx.user_token_account
        },
        event: TokensLocked {
            owner: ctx.owner,
            mint: ctx.token_mint,
            amount: actual_amount,
            unlock_timestamp,
        },
    })
}

/// A created record is well formed, and when the deposit lands in a freshly
/// initialized (empty) vault, record and vault come out consistent: the
/// record's locked balance is exactly the vault's spendable balance.
pub proof fn lemma_create_establishes_invariant(
    ctx: LockTokens,
    amount: u64,
    unlock_timestamp: i64,
    lock_id: u64,
    now: i64,
    bump: u8,
    vault_balance_after: u64,
    vault_withheld_after: u64,
)
    ensures
        ({
            let r = lock_result(ctx, amount, unlock_timestamp, lock_id, now, bump, 0,
                vault_balance_after, vault_withheld_after);
            r is Ok ==> {
                &&& r->Ok_0.lock_record.wf()
                &&& r->Ok_0.lock_record.vault_consistent(r->Ok_0.vault)
            }
        }),
{
}

} // verus!
