use dloom_locker::authority::{derive_record_address, derive_vault_address, Address};
use dloom_locker::close_vault::{handle_close_vault, CloseOutcome, CloseVault};
use dloom_locker::errors::LockerError;
use dloom_locker::lock_record::LockRecord;
use dloom_locker::lock_tokens::{handle_lock_tokens, validate_lock, LockTokens, MAX_LOCK_DURATION};
use dloom_locker::token_account::TokenAccount;
use dloom_locker::withdraw_tokens::{handle_withdraw_tokens, WithdrawTokens};

const OWNER: u64 = 11;
const MINT: u64 = 22;
const LOCK_ID: u64 = 7;
const NOW: i64 = 1_700_000_000;
const UNLOCK: i64 = 1_700_000_100;

fn wallet(owner: u64, mint: u64, amount: u64) -> TokenAccount {
    TokenAccount {
        address: Address::External { key: 500 + owner },
        mint,
        owner: Address::External { key: owner },
        amount,
        withheld_amount: 0,
    }
}

fn lock_state(amount: u64, unlock: i64, withheld: u64) -> (LockRecord, TokenAccount) {
    let record = LockRecord {
        bump: 254,
        owner: OWNER,
        mint: MINT,
        vault: derive_vault_address(OWNER, MINT, LOCK_ID),
        amount,
        unlock_timestamp: unlock,
        id: LOCK_ID,
    };
    let vault = TokenAccount {
        address: record.vault,
        mint: MINT,
        owner: derive_record_address(OWNER, MINT, LOCK_ID),
        amount,
        withheld_amount: withheld,
    };
    (record, vault)
}

fn withdraw_ctx(record: LockRecord, vault: TokenAccount, user_amount: u64) -> WithdrawTokens {
    WithdrawTokens {
        owner: OWNER,
        lock_record: record,
        vault,
        user_token_account: wallet(OWNER, MINT, user_amount),
        token_mint: MINT,
    }
}

fn create(amount: u64, unlock: i64, user_amount: u64, vault_after: u64) -> Result<dloom_locker::lock_tokens::LockOutcome, LockerError> {
    let ctx = LockTokens {
        owner: OWNER,
        token_mint: MINT,
        user_token_account: wallet(OWNER, MINT, user_amount),
    };
    handle_lock_tokens(ctx, amount, unlock, LOCK_ID, NOW, 254, 0, vault_after, 0)
}

#[test]
fn create_records_vault_delta_not_requested_amount() {
    // The ledger keeps 10 of the 1000 deposited: the record must claim 990.
    let out = create(1000, UNLOCK, 5000, 990).unwrap();
    assert_eq!(out.lock_record.amount, 990);
    assert_eq!(out.event.amount, 990);
    assert_eq!(out.event.owner, OWNER);
    assert_eq!(out.event.mint, MINT);
    assert_eq!(out.event.unlock_timestamp, UNLOCK);
    assert_eq!(out.user_token_account.amount, 4000);
    assert_eq!(out.vault.amount, 990);
    assert_eq!(out.lock_record.vault, derive_vault_address(OWNER, MINT, LOCK_ID));
    assert_eq!(out.lock_record.unlock_timestamp, UNLOCK);
    assert_eq!(out.lock_record.id, LOCK_ID);
}

#[test]
fn create_rejects_zero_amount() {
    assert_eq!(create(0, UNLOCK, 5000, 0), Err(LockerError::ZeroAmount));
}

#[test]
fn create_rejects_unlock_at_creation_time() {
    assert_eq!(create(100, NOW, 5000, 100), Err(LockerError::UnlockDateInPast));
}

#[test]
fn create_rejects_unlock_before_creation_time() {
    assert_eq!(create(100, NOW - 1, 5000, 100), Err(LockerError::UnlockDateInPast));
}

#[test]
fn create_accepts_unlock_at_ceiling() {
    let out = create(100, NOW + MAX_LOCK_DURATION, 5000, 100).unwrap();
    assert_eq!(out.lock_record.amount, 100);
}

#[test]
fn create_rejects_unlock_past_ceiling() {
    assert_eq!(
        create(100, NOW + MAX_LOCK_DURATION + 1, 5000, 100),
        Err(LockerError::LockDurationTooLong)
    );
}

#[test]
fn create_duration_check_survives_extreme_instants() {
    // i64::MAX - i64::MIN does not fit an i64; the check must still refuse.
    let ctx = LockTokens {
        owner: OWNER,
        token_mint: MINT,
        user_token_account: wallet(OWNER, MINT, 5000),
    };
    assert_eq!(
        handle_lock_tokens(ctx, 100, i64::MAX, LOCK_ID, i64::MIN, 254, 0, 100, 0),
        Err(LockerError::LockDurationTooLong)
    );
    assert_eq!(
        validate_lock(100, i64::MAX, i64::MIN),
        Err(LockerError::LockDurationTooLong)
    );
}

#[test]
fn create_rejects_insufficient_balance() {
    assert_eq!(create(6000, UNLOCK, 5000, 6000), Err(LockerError::InsufficientFunds));
}

#[test]
fn create_rejects_wrong_mint_account() {
    let ctx = LockTokens {
        owner: OWNER,
        token_mint: MINT,
        user_token_account: wallet(OWNER, MINT + 1, 5000),
    };
    assert_eq!(
        handle_lock_tokens(ctx, 100, UNLOCK, LOCK_ID, NOW, 254, 0, 100, 0),
        Err(LockerError::InvalidAuthority)
    );
}

#[test]
fn create_reports_overflow_on_shrinking_vault() {
    let ctx = LockTokens {
        owner: OWNER,
        token_mint: MINT,
        user_token_account: wallet(OWNER, MINT, 5000),
    };
    assert_eq!(
        handle_lock_tokens(ctx, 100, UNLOCK, LOCK_ID, NOW, 254, 50, 20, 0),
        Err(LockerError::MathOverflow)
    );
}

#[test]
fn full_withdrawal_tears_down_and_refunds_owner() {
    let (record, vault) = lock_state(800, UNLOCK, 0);
    let out = handle_withdraw_tokens(withdraw_ctx(record, vault, 100), LOCK_ID, 800, UNLOCK)
        .unwrap();
    assert_eq!(out.lock_record, None);
    assert_eq!(out.vault, None);
    assert_eq!(out.rent_refunded_to, Some(OWNER));
    assert_eq!(out.user_token_account.amount, 900);
    assert_eq!(out.event.amount, 800);
    assert_eq!(out.event.owner, OWNER);
    assert_eq!(out.event.mint, MINT);
}

#[test]
fn two_withdrawals_summing_to_lock_tear_down_and_pay_total() {
    let (record, vault) = lock_state(800, UNLOCK, 0);
    let first = handle_withdraw_tokens(withdraw_ctx(record, vault, 100), LOCK_ID, 300, UNLOCK)
        .unwrap();
    let record = first.lock_record.unwrap();
    let vault = first.vault.unwrap();
    assert_eq!(record.amount, 500);
    let ctx = WithdrawTokens {
        owner: OWNER,
        lock_record: record,
        vault,
        user_token_account: first.user_token_account,
        token_mint: MINT,
    };
    let second = handle_withdraw_tokens(ctx, LOCK_ID, 500, UNLOCK).unwrap();
    assert_eq!(second.lock_record, None);
    assert_eq!(second.vault, None);
    assert_eq!(second.rent_refunded_to, Some(OWNER));
    assert_eq!(second.user_token_account.amount, 100 + 800);
}

#[test]
fn partial_withdrawal_leaves_lock_open() {
    let (record, vault) = lock_state(800, UNLOCK, 0);
    let out = handle_withdraw_tokens(withdraw_ctx(record, vault, 0), LOCK_ID, 300, UNLOCK)
        .unwrap();
    let remaining = out.lock_record.expect("record must stay");
    assert_eq!(remaining.amount, 500);
    assert_eq!(out.vault.expect("vault must stay").amount, 500);
    assert_eq!(out.rent_refunded_to, None);
    assert_eq!(out.user_token_account.amount, 300);
}

#[test]
fn partial_withdrawal_leaves_lock_open_with_withheld_fees() {
    let (record, vault) = lock_state(800, UNLOCK, 40);
    let out = handle_withdraw_tokens(withdraw_ctx(record, vault, 0), LOCK_ID, 300, UNLOCK)
        .unwrap();
    assert_eq!(out.lock_record.expect("record must stay").amount, 500);
    assert!(out.vault.is_some());
    assert_eq!(out.rent_refunded_to, None);
}

#[test]
fn draining_withdrawal_with_withheld_fees_leaves_accounts_open() {
    let (record, vault) = lock_state(800, UNLOCK, 40);
    let out = handle_withdraw_tokens(withdraw_ctx(record, vault, 0), LOCK_ID, 800, UNLOCK)
        .unwrap();
    assert_eq!(out.lock_record.expect("record must stay").amount, 0);
    assert_eq!(out.vault.expect("vault must stay").amount, 0);
    assert_eq!(out.rent_refunded_to, None);
    assert_eq!(out.user_token_account.amount, 800);
}

#[test]
fn withdrawal_before_unlock_is_still_locked() {
    let (record, vault) = lock_state(800, UNLOCK, 0);
    assert_eq!(
        handle_withdraw_tokens(withdraw_ctx(record, vault, 0), LOCK_ID, 300, UNLOCK - 1),
        Err(LockerError::StillLocked)
    );
}

#[test]
fn withdrawal_of_zero_is_rejected() {
    let (record, vault) = lock_state(800, UNLOCK, 0);
    assert_eq!(
        handle_withdraw_tokens(withdraw_ctx(record, vault, 0), LOCK_ID, 0, UNLOCK),
        Err(LockerError::ZeroAmount)
    );
}

#[test]
fn withdrawal_above_locked_amount_is_rejected() {
    let (record, vault) = lock_state(800, UNLOCK, 0);
    assert_eq!(
        handle_withdraw_tokens(withdraw_ctx(record, vault, 0), LOCK_ID, 801, UNLOCK),
        Err(LockerError::InsufficientFunds)
    );
}

#[test]
fn withdrawal_by_other_identity_is_refused() {
    let (record, vault) = lock_state(800, UNLOCK, 0);
    let mut ctx = withdraw_ctx(record, vault, 0);
    ctx.owner = OWNER + 1;
    assert_eq!(
        handle_withdraw_tokens(ctx, LOCK_ID, 300, UNLOCK),
        Err(LockerError::InvalidAuthority)
    );
}

#[test]
fn withdrawal_with_foreign_vault_is_refused() {
    let (record, _) = lock_state(800, UNLOCK, 0);
    let foreign_vault = TokenAccount {
        address: derive_vault_address(OWNER, MINT, LOCK_ID + 1),
        mint: MINT,
        owner: derive_record_address(OWNER, MINT, LOCK_ID + 1),
        amount: 800,
        withheld_amount: 0,
    };
    assert_eq!(
        handle_withdraw_tokens(withdraw_ctx(record, foreign_vault, 0), LOCK_ID, 300, UNLOCK),
        Err(LockerError::InvalidAuthority)
    );
}

#[test]
fn create_then_full_withdraw_restores_owner_balance() {
    // Fee-free deposit: the whole requested amount lands in the vault.
    let created = create(1000, UNLOCK, 5000, 1000).unwrap();
    assert_eq!(created.user_token_account.amount, 4000);
    let ctx = WithdrawTokens {
        owner: OWNER,
        lock_record: created.lock_record,
        vault: created.vault,
        user_token_account: created.user_token_account,
        token_mint: MINT,
    };
    let out = handle_withdraw_tokens(ctx, LOCK_ID, created.lock_record.amount, UNLOCK).unwrap();
    assert_eq!(out.lock_record, None);
    assert_eq!(out.vault, None);
    assert_eq!(out.user_token_account.amount, 5000);
}

#[test]
fn close_refuses_lock_still_holding_tokens() {
    for withheld in [0u64, 40] {
        let (record, vault) = lock_state(800, UNLOCK, withheld);
        let ctx = CloseVault { owner: OWNER, lock_record: record, vault, token_mint: MINT };
        assert_eq!(handle_close_vault(ctx, LOCK_ID), Err(LockerError::ZeroAmount));
    }
}

#[test]
fn close_refuses_drained_lock_with_withheld_fees() {
    let (record, vault) = lock_state(0, UNLOCK, 40);
    let ctx = CloseVault { owner: OWNER, lock_record: record, vault, token_mint: MINT };
    assert_eq!(handle_close_vault(ctx, LOCK_ID), Err(LockerError::CannotCloseWithheldFees));
}

#[test]
fn close_succeeds_once_withholding_clears() {
    let (record, vault) = lock_state(0, UNLOCK, 0);
    let ctx = CloseVault { owner: OWNER, lock_record: record, vault, token_mint: MINT };
    assert_eq!(
        handle_close_vault(ctx, LOCK_ID),
        Ok(CloseOutcome { rent_refunded_to: OWNER })
    );
}

#[test]
fn close_by_other_identity_is_refused() {
    let (record, vault) = lock_state(0, UNLOCK, 0);
    let ctx = CloseVault { owner: OWNER + 1, lock_record: record, vault, token_mint: MINT };
    assert_eq!(handle_close_vault(ctx, LOCK_ID), Err(LockerError::InvalidAuthority));
}
