//! Withdraw: time-gated partial or full release of a lock.

use vstd::prelude::*;

use crate::errors::LockerError;
use crate::events::TokensWithdrawn;
use crate::lock_record::LockRecord;
use crate::token_account::TokenAccount;

verus! {

/// The snapshot of durable state a withdrawal runs against: the caller, the
/// lock record loaded for the caller-supplied key, the record's vault, the
/// account receiving the withdrawal, and the asset.
#[derive(Clone, Copy, Debug, PartialEq, Eq, Structural)]
pub struct WithdrawTokens {
    pub owner: u64,
    pub lock_record: LockRecord,
    pub vault: TokenAccount,
    pub user_token_account: TokenAccount,
    pub token_mint: u64,
}

/// What a successful withdrawal commits. `None` for the record or the vault
/// means it was destroyed; `rent_refunded_to` names who received the record's
/// storage deposit on teardown.
#[derive(Clone, Copy, Debug, PartialEq, Eq, Structural)]
pub struct WithdrawOutcome {
    pub lock_record: Option<LockRecord>,
    pub vault: Option<TokenAccount>,
    pub user_token_account: TokenAccount,
    pub rent_refunded_to: Option<u64>,
    pub event: TokensWithdrawn,
}

/// The authentication a withdrawal re-derives before touching anything: the
/// record must be the one the caller's (owner, mint, lock id) key derives,
/// owned by the caller, and the supplied vault must sit at the record's
/// stored vault address.
pub open spec fn withdraw_accounts_valid(ctx: WithdrawTokens, lock_id: u64) -> bool {
    &&& ctx.lock_record.owner == ctx.owner
    &&& ctx.lock_record.mint == ctx.token_mint
    &&& ctx.lock_record.id == lock_id
    &&& ctx.vault.address == ctx.lock_record.vault
}

/// Exactly which error a withdrawal reports, in validation order; `None`
/// when it succeeds.
pub open spec fn withdraw_error(
    ctx: WithdrawTokens,
    lock_id: u64,
    amount: u64,
    now: i64,
) -> Option<LockerError> {
    if !withdraw_accounts_valid(ctx, lock_id) {
        Some(LockerError::InvalidAuthority)
    } else if now < ctx.lock_record.unlock_timestamp {
        Some(LockerError::StillLocked)
    } else if amount == 0 {
        Some(LockerError::ZeroAmount)
    } else if amount > ctx.lock_record.amount {
        Some(LockerError::InsufficientFunds)
    } else {
        None
    }
}

/// The teardown rule: vault and record are destroyed together exactly when
/// this withdrawal drains the lock and the ledger withholds no fees in the
/// vault. A drained but fee-withheld vault stays open for a later Close.
pub open spec fn withdraw_tears_down(ctx: WithdrawTokens, amount: u64) -> bool {
    amount == ctx.lock_record.amount && !ctx.vault.spec_has_withheld_fees()
}

/// The state a successful withdrawal of `amount` commits: the vault pays out
/// exactly `amount`, the locked balance drops by `amount`, and teardown
/// happens exactly under `withdraw_tears_down`. The storage deposit is
/// refunded to the stored owner, never to anyone else.
pub open spec fn withdraw_outcome(ctx: WithdrawTokens, amount: u64) -> WithdrawOutcome {
    let remaining = (ctx.lock_record.amount - amount) as u64;
    let user = TokenAccount {
        amount: (ctx.user_token_account.amount + amount) as u64,
        ..ctx.user_token_account
    };
    let event = TokensWithdrawn {
        owner: ctx.owner,
        mint: ctx.lock_record.mint,
        amount,
    };
    if withdraw_tears_down(ctx, amount) {
        WithdrawOutcome {
            lock_record: None,
            vault: None,
            user_token_account: user,
            rent_refunded_to: Some(ctx.lock_record.owner),
            event,
        }
    } else {
        WithdrawOutcome {
            lock_record: Some(LockRecord { amount: remaining, ..ctx.lock_record }),
            vault: Some(TokenAccount { amount: (ctx.vault.amount - amount) as u64, ..ctx.vault }),
            user_token_account: user,
            rent_refunded_to: None,
            event,
        }
    }
}

/// The whole withdrawal, as one transition on the snapshot.
pub open spec fn withdraw_result(
    ctx: WithdrawTokens,
    lock_id: u64,
    amount: u64,
    now: i64,
) -> Result<WithdrawOutcome, LockerError> {
    match withdraw_error(ctx, lock_id, amount, now) {
        Some(e) => Err(e),
        None => Ok(withdraw_outcome(ctx, amount)),
    }
}

/// What a withdrawal may assume of durable state: the record is well formed,
/// and if the supplied vault really sits at the record's vault address then
/// it is the record's vault, consistent with the record, and the mint's
/// balances fit the ledger's 64-bit supply.
pub open spec fn withdraw_pre(ctx: WithdrawTokens) -> bool {
    &&& ctx.lock_record.wf()
    &&& ctx.vault.address == ctx.lock_record.vault ==> {
        &&& ctx.lock_record.vault_consistent(ctx.vault)
        &&& ctx.user_token_account.amount + ctx.vault.amount <= u64::MAX
    }
}

/// Withdraws `amount` from the caller's lock, strictly after the unlock
/// instant. On success the vault pays exactly `amount` to the user's
/// account; if that drains the lock and no fees are withheld, vault and
/// record are destroyed together and the storage deposit returns to the
/// stored owner; otherwise both stay open with the locked balance reduced.
pub fn handle_withdraw_tokens(
    ctx: WithdrawTokens,
    lock_id: u64,
    amount: u64,
    now: i64,
) -> (r: Result<WithdrawOutcome, LockerError>)
    requires
        withdraw_pre(ctx),
    ensures
        r == withdraw_result(ctx, lock_id, amount, now),
{
    if ctx.lock_record.owner != ctx.owner
        || ctx.lock_record.mint != ctx.token_mint
        || ctx.lock_record.id != lock_id
        || ctx.vault.address != ctx.lock_record.vault
    {
        return Err(LockerError::InvalidAuthority);
    }
    if now < ctx.lock_record.unlock_timestamp {
        return Err(LockerError::StillLocked);
    }
    if amount == 0 {
        return Err(LockerError::ZeroAmount);
    }
    if amount > ctx.lock_record.amount {
        return Err(LockerError::InsufficientFunds);
    }

    // The ledger moves exactly `amount` from the vault to the user.
    let user_token_account = TokenAccount {
        amount: ctx.user_token_account.amount + amount,
        ..ctx.user_token_account
    };
    let remaining = ctx.lock_record.amount - amount;
    let event = TokensWithdrawn { owner: ctx.owner, mint: ctx.lock_record.mint, amount };

    if remaining == 0 && !ctx.vault.has_withheld_fees() {
        Ok(WithdrawOutcome {
            lock_record: None,
            vault: None,
            user_token_account,
            rent_refunded_to: Some(ctx.lock_record.owner),
            event,
        })
    } else {
        Ok(WithdrawOutcome {
            lock_record: Some(LockRecord { amount: remaining, ..ctx.lock_record }),
            vault: Some(TokenAccount { amount: ctx.vault.amount - amount, ..ctx.vault }),
            user_token_account,
            rent_refunded_to: None,
            event,
        })
    }
}

/// A withdrawal that leaves the record open preserves the durable
/// invariants: the surviving record keeps its key, its unlock instant and
/// its well-formedness, stays consistent with the surviving vault, and
/// holds strictly less than before.
pub proof fn lemma_withdraw_preserves_invariant(
    ctx: WithdrawTokens,
    lock_id: u64,
    amount: u64,
    now: i64,
)
    requires
        withdraw_pre(ctx),
        withdraw_result(ctx, lock_id, amount, now) is Ok,
        withdraw_result(ctx, lock_id, amount, now)->Ok_0.lock_record is Some,
    ensures
        ({
            let out = withdraw_result(ctx, lock_id, amount, now)->Ok_0;
            let rec = out.lock_record->Some_0;
            &&& out.vault is Some
            &&& rec.wf()
            &&& rec.vault_consistent(out.vault->Some_0)
            &&& rec.owner == ctx.lock_record.owner
            &&& rec.mint == ctx.lock_record.mint
            &&& rec.id == ctx.lock_record.id
            &&& rec.unlock_timestamp == ctx.lock_record.unlock_timestamp
            &&& rec.amount < ctx.lock_record.amount
        }),
{
}

/// A partial withdrawal (`amount` strictly below the locked balance) leaves
/// the record open with exactly the difference still locked, and leaves the
/// vault open, whatever the fee state.
pub proof fn lemma_partial_withdrawal_leaves_lock_open(
    ctx: WithdrawTokens,
    lock_id: u64,
    amount: u64,
    now: i64,
)
    requires
        withdraw_pre(ctx),
        withdraw_accounts_valid(ctx, lock_id),
        now >= ctx.lock_record.unlock_timestamp,
        0 < amount < ctx.lock_record.amount,
    ensures
        ({
            let r = withdraw_result(ctx, lock_id, amount, now);
            &&& r is Ok
            &&& r->Ok_0.lock_record == Some(LockRecord {
                amount: (ctx.lock_record.amount - amount) as u64,
                ..ctx.lock_record
            })
            &&& r->Ok_0.vault is Some
            &&& r->Ok_0.rent_refunded_to is None
        }),
{
}

} // verus!
