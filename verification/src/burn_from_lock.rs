//! BurnFromLock: destroy tokens directly out of an active lock's vault.

use vstd::prelude::*;

use crate::authority;
use crate::errors::LockerError;
use crate::events::LockedTokensBurned;
use crate::lock_record::LockRecord;
use crate::token_account::TokenAccount;

verus! {

/// The snapshot a lock-scoped burn runs against: the caller, the asset, the
/// lock record loaded for the caller-supplied key, and its vault.
#[derive(Clone, Copy, Debug, PartialEq, Eq, Structural)]
pub struct BurnFromLock {
    pub owner: u64,
    pub token_mint: u64,
    pub lock_record: LockRecord,
    pub vault: TokenAccount,
}

/// What a successful lock-scoped burn commits. Unlike a withdrawal, a burn
/// never tears the record or the vault down, even when it drains the lock:
/// both always survive, and Close must still be called explicitly.
#[derive(Clone, Copy, Debug, PartialEq, Eq, Structural)]
pub struct BurnFromLockOutcome {
    pub lock_record: LockRecord,
    pub vault: TokenAccount,
    pub event: LockedTokensBurned,
}

/// The authentication a lock-scoped burn re-derives: the record must be the
/// one the caller's (owner, mint, lock id) key derives, owned by the caller;
/// the supplied vault must sit at the record's stored vault address, hold
/// the asset, and be signed for by the record's derived authority.
pub open spec fn burn_from_lock_accounts_valid(ctx: BurnFromLock, lock_id: u64) -> bool {
    &&& ctx.lock_record.owner == ctx.owner
    &&& ctx.lock_record.mint == ctx.token_mint
    &&& ctx.lock_record.id == lock_id
    &&& ctx.vault.address == ctx.lock_record.vault
    &&& ctx.vault.mint == ctx.token_mint
    &&& ctx.vault.owner == authority::vault_authority(ctx.owner, ctx.token_mint, lock_id)
}

/// The whole lock-scoped burn, as one transition on the snapshot: `amount`
/// tokens are destroyed out of the vault and the locked balance drops by
/// exactly `amount`; record and vault stay.
pub open spec fn burn_from_lock_result(
    ctx: BurnFromLock,
    amount: u64,
    lock_id: u64,
) -> Result<BurnFromLockOutcome, LockerError> {
    if !burn_from_lock_accounts_valid(ctx, lock_id) {
        Err(LockerError::InvalidAuthority)
    } else if amount == 0 {
        Err(LockerError::ZeroAmount)
    } else if amount > ctx.lock_record.amount {
        Err(LockerError::BurnAmountExceedsLocked)
    } else {
        Ok(BurnFromLockOutcome {
            lock_record: LockRecord {
                amount: (ctx.lock_record.amount - amount) as u64,
                ..ctx.lock_record
            },
            vault: TokenAccount { amount: (ctx.vault.amount - amount) as u64, ..ctx.vault },
            event: LockedTokensBurned {
                owner: ctx.owner,
                mint: ctx.token_mint,
                amount,
                lock_id,
            },
        })
    }
}

/// What a lock-scoped burn may assume of durable state: the record is well
/// formed, and an account at the record's vault address is the record's
/// vault, consistent with it.
pub open spec fn burn_from_lock_pre(ctx: BurnFromLock) -> bool {
    &&& ctx.lock_record.wf()
    &&& ctx.vault.address == ctx.lock_record.vault ==> ctx.lock_record.vault_consistent(ctx.vault)
}

/// Burns `amount` tokens directly from the vault under the record's derived
/// authority and decrements the locked balance by the same amount. The
/// subtraction is checked defensively, but validation has already made an
/// underflow impossible, so `MathOverflow` is never reported.
pub fn handle_burn_from_lock(ctx: BurnFromLock, amount: u64, lock_id: u64) -> (r: Result<
    BurnFromLockOutcome,
    LockerError,
>)
    requires
        burn_from_lock_pre(ctx),
    ensures
        r == burn_from_lock_result(ctx, amount, lock_id),
{
    if ctx.lock_record.owner != ctx.owner
        || ctx.lock_record.mint != ctx.token_mint
        || ctx.lock_record.id != lock_id
        || ctx.vault.address != ctx.lock_record.vault
        || ctx.vault.mint != ctx.token_mint
        || ctx.vault.owner != authority::derive_record_address(ctx.owner, ctx.token_mint, lock_id)
    {
        return Err(LockerError::InvalidAuthority);
    }
    if amount == 0 {
        return Err(LockerError::ZeroAmount);
    }
    if amount > ctx.lock_record.amount {
        return Err(LockerError::BurnAmountExceedsLocked);
    }

    // The ledger destroys exactly `amount` out of the vault.
    let vault = TokenAccount { amount: ctx.vault.amount - amount, ..ctx.vault };
    let remaining = match ctx.lock_record.amount.checked_sub(amount) {
        Some(v) => v,
        None => {
            return Err(LockerError::MathOverflow);
        },
    };
    Ok(BurnFromLockOutcome {
        lock_record: LockRecord { amount: remaining, ..ctx.lock_record },
        vault,
        event: LockedTokensBurned { owner: ctx.owner, mint: ctx.token_mint, amount, lock_id },
    })
}

/// A successful lock-scoped burn preserves the durable invariants: the
/// record keeps its key, its unlock instant and its well-formedness, and
/// stays consistent with its vault.
pub proof fn lemma_burn_from_lock_preserves_invariant(
    ctx: BurnFromLock,
    amount: u64,
    lock_id: u64,
)
    requires
        burn_from_lock_pre(ctx),
        burn_from_lock_result(ctx, amount, lock_id) is Ok,
    ensures
        ({
            let out = burn_from_lock_result(ctx, amount, lock_id)->Ok_0;
            &&& out.lock_record.wf()
            &&& out.lock_record.vault_consistent(out.vault)
            &&& out.lock_record.owner == ctx.lock_record.owner
            &&& out.lock_record.mint == ctx.lock_record.mint
            &&& out.lock_record.id == ctx.lock_record.id
            &&& out.lock_record.unlock_timestamp == ctx.lock_record.unlock_timestamp
        }),
{
}

/// A lock-scoped burn strictly decreases the locked balance by exactly the
/// requested amount, and never destroys the record or the vault — even when
/// the remaining balance reaches zero.
pub proof fn lemma_burn_from_lock_decreases_and_preserves(
    ctx: BurnFromLock,
    amount: u64,
    lock_id: u64,
)
    requires
        burn_from_lock_accounts_valid(ctx, lock_id),
        0 < amount <= ctx.lock_record.amount,
    ensures
        ({
            let r = burn_from_lock_result(ctx, amount, lock_id);
            &&& r is Ok
            &&& r->Ok_0.lock_record.amount == ctx.lock_record.amount - amount
            &&& r->Ok_0.lock_record.amount < ctx.lock_record.amount
            &&& r->Ok_0.lock_record == (LockRecord {
                amount: (ctx.lock_record.amount - amount) as u64,
                ..ctx.lock_record
            })
        }),
{
}

} // verus!
