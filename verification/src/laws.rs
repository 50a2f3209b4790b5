//! Laws relating the lifecycle operations to one another.
//!
//! Each proof function here states a guarantee of the engine as a whole —
//! across a sequence of withdrawals, or across a create followed by a
//! withdrawal — over the same spec transitions the operations' own
//! contracts use.

use vstd::prelude::*;

use crate::errors::LockerError;
use crate::lock_tokens::{lock_error, lock_result, LockTokens, MAX_LOCK_DURATION};
use crate::withdraw_tokens::{
    withdraw_accounts_valid, withdraw_pre, withdraw_result, WithdrawOutcome, WithdrawTokens,
};

verus! {

/// A valid creation locks exactly the delta in vault balance observed
/// across the deposit — never the raw requested amount — and reports that
/// same delta in the deposit notification. A ledger that charges a deposit
/// fee therefore can never make the record claim more than what actually
/// landed in custody.
pub proof fn lemma_locked_amount_is_vault_delta(
    ctx: LockTokens,
    amount: u64,
    unlock_timestamp: i64,
    lock_id: u64,
    now: i64,
    bump: u8,
    vault_balance_before: u64,
    vault_balance_after: u64,
    vault_withheld_after: u64,
)
    requires
        lock_result(ctx, amount, unlock_timestamp, lock_id, now, bump, vault_balance_before,
            vault_balance_after, vault_withheld_after) is Ok,
    ensures
        ({
            let out = lock_result(ctx, amount, unlock_timestamp, lock_id, now, bump,
                vault_balance_before, vault_balance_after, vault_withheld_after)->Ok_0;
            &&& out.lock_record.amount == vault_balance_after - vault_balance_before
            &&& out.event.amount == vault_balance_after - vault_balance_before
        }),
{
}

/// The total of a sequence of withdrawal amounts.
pub open spec fn sum_of(ks: Seq<u64>) -> int
    decreases ks.len(),
{
    if ks.len() == 0 {
        0
    } else {
        ks[0] + sum_of(ks.drop_first())
    }
}

/// A sequence of positive amounts totals at least its length.
pub proof fn lemma_sum_of_positive(ks: Seq<u64>)
    requires
        forall|i: int| 0 <= i < ks.len() ==> ks[i] > 0,
    ensures
        sum_of(ks) >= ks.len(),
    decreases ks.len(),
{
    if ks.len() > 0 {
        assert(forall|i: int|
            0 <= i < ks.drop_first().len() ==> ks.drop_first()[i] == ks[i + 1]);
        lemma_sum_of_positive(ks.drop_first());
    }
}

/// The snapshot the next withdrawal of a sequence runs against, once the
/// previous one left record and vault open.
pub open spec fn next_withdraw_ctx(ctx: WithdrawTokens, out: WithdrawOutcome) -> WithdrawTokens {
    WithdrawTokens {
        owner: ctx.owner,
        lock_record: out.lock_record->Some_0,
        vault: out.vault->Some_0,
        user_token_account: out.user_token_account,
        token_mint: ctx.token_mint,
    }
}

/// A sequence of withdrawals against one lock, each running on the state
/// the previous one committed. If a withdrawal fails, or tears the lock
/// down before the sequence ends, the remaining ones cannot run: the
/// record they would load no longer exists.
pub open spec fn run_withdrawals(
    ctx: WithdrawTokens,
    lock_id: u64,
    now: i64,
    ks: Seq<u64>,
) -> Result<WithdrawOutcome, LockerError>
    decreases ks.len(),
{
    let first = withdraw_result(ctx, lock_id, ks[0], now);
    if ks.len() <= 1 {
        first
    } else {
        match first {
            Ok(out) => {
                if out.lock_record is Some && out.vault is Some {
                    run_withdrawals(next_withdraw_ctx(ctx, out), lock_id, now, ks.drop_first())
                } else {
                    Err(LockerError::InvalidAuthority)
                }
            },
            Err(e) => Err(e),
        }
    }
}

/// Any sequence of positive withdrawals totalling exactly the locked
/// amount, against a vault with no withheld fees and after the unlock
/// instant, runs to completion: the final withdrawal tears record and
/// vault down together, refunds the storage deposit to the stored owner,
/// and the owner's balance has grown by exactly the total withdrawn.
pub proof fn lemma_full_withdrawal_sequence(
    ctx: WithdrawTokens,
    lock_id: u64,
    now: i64,
    ks: Seq<u64>,
)
    requires
        withdraw_pre(ctx),
        withdraw_accounts_valid(ctx, lock_id),
        now >= ctx.lock_record.unlock_timestamp,
        !ctx.vault.spec_has_withheld_fees(),
        ks.len() >= 1,
        forall|i: int| 0 <= i < ks.len() ==> ks[i] > 0,
        sum_of(ks) == ctx.lock_record.amount,
    ensures
        ({
            let r = run_withdrawals(ctx, lock_id, now, ks);
            &&& r is Ok
            &&& r->Ok_0.lock_record is None
            &&& r->Ok_0.vault is None
            &&& r->Ok_0.rent_refunded_to == Some(ctx.lock_record.owner)
            &&& r->Ok_0.user_token_account.amount == ctx.user_token_account.amount + sum_of(ks)
        }),
    decreases ks.len(),
{
    let rest = ks.drop_first();
    assert(forall|i: int| 0 <= i < rest.len() ==> rest[i] == ks[i + 1]);
    if ks.len() == 1 {
        assert(sum_of(rest) == 0);
        assert(ks[0] == ctx.lock_record.amount);
    } else {
        lemma_sum_of_positive(rest);
        assert(ks[0] < ctx.lock_record.amount);
        let out = withdraw_result(ctx, lock_id, ks[0], now)->Ok_0;
        let next = next_withdraw_ctx(ctx, out);
        assert(next.lock_record.wf());
        assert(next.lock_record.vault_consistent(next.vault));
        lemma_full_withdrawal_sequence(next, lock_id, now, rest);
    }
}

/// Creating a lock and then withdrawing the full deposited amount after the
/// unlock instant, with no fees withheld, tears the lock down and returns
/// the owner's balance to its value before the creation, less only
/// whatever the ledger itself kept of the deposit: exactly the pre-creation
/// balance whenever the full deposit landed in the vault.
pub proof fn lemma_create_withdraw_round_trip(
    ctx: LockTokens,
    amount: u64,
    unlock_timestamp: i64,
    lock_id: u64,
    now: i64,
    bump: u8,
    vault_balance_after: u64,
    withdraw_now: i64,
)
    requires
        lock_result(ctx, amount, unlock_timestamp, lock_id, now, bump, 0, vault_balance_after,
            0) is Ok,
        // The ledger cannot mint on transfer, and something of the deposit
        // must have landed for a full withdrawal to exist.
        0 < vault_balance_after <= amount,
        withdraw_now >= unlock_timestamp,
    ensures
        ({
            let created = lock_result(ctx, amount, unlock_timestamp, lock_id, now, bump, 0,
                vault_balance_after, 0)->Ok_0;
            let wctx = WithdrawTokens {
                owner: ctx.owner,
                lock_record: created.lock_record,
                vault: created.vault,
                user_token_account: created.user_token_account,
                token_mint: ctx.token_mint,
            };
            let r = withdraw_result(wctx, lock_id, created.lock_record.amount, withdraw_now);
            &&& r is Ok
            &&& r->Ok_0.lock_record is None
            &&& r->Ok_0.vault is None
            &&& r->Ok_0.user_token_account.amount == ctx.user_token_account.amount - (
            amount - vault_balance_after)
            &&& vault_balance_after == amount
                ==> r->Ok_0.user_token_account.amount == ctx.user_token_account.amount
        }),
{
}

/// The creation window boundaries: an unlock instant exactly equal to the
/// creation time is already in the past; one exactly at the five-year
/// ceiling is accepted; one a single second past the ceiling is too long.
pub proof fn lemma_unlock_window_boundaries(
    ctx: LockTokens,
    amount: u64,
    now: i64,
    at_ceiling: i64,
    past_ceiling: i64,
    vault_balance_before: u64,
    vault_balance_after: u64,
)
    requires
        ctx.user_token_account.mint == ctx.token_mint,
        0 < amount <= ctx.user_token_account.amount,
        vault_balance_before <= vault_balance_after,
        at_ceiling - now == MAX_LOCK_DURATION,
        past_ceiling - now == MAX_LOCK_DURATION + 1,
    ensures
        lock_error(ctx, amount, now, now, vault_balance_before, vault_balance_after) == Some(
            LockerError::UnlockDateInPast,
        ),
        lock_error(ctx, amount, at_ceiling, now, vault_balance_before, vault_balance_after)
            is None,
        lock_error(ctx, amount, past_ceiling, now, vault_balance_before, vault_balance_after)
            == Some(LockerError::LockDurationTooLong),
{
}

} // verus!

