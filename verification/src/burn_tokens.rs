//! BurnFromWallet: destroy tokens from the caller's own balance.
//!
//! Independent of the lock record store: no record is read or written.

use vstd::prelude::*;

use crate::authority::Address;
use crate::errors::LockerError;
use crate::events::TokensBurned;
use crate::token_account::TokenAccount;

verus! {

/// The snapshot a wallet burn runs against: the caller, the asset, and the
/// caller's own token account the burn is taken from.
#[derive(Clone, Copy, Debug, PartialEq, Eq, Structural)]
pub struct BurnTokens {
    pub burner: u64,
    pub token_mint: u64,
    pub user_token_account: TokenAccount,
}

/// What a successful wallet burn commits: the debited account and the burn
/// notification.
#[derive(Clone, Copy, Debug, PartialEq, Eq, Structural)]
pub struct BurnTokensOutcome {
    pub user_token_account: TokenAccount,
    pub event: TokensBurned,
}

/// The validation a wallet burn performs: the supplied account must belong
/// to the caller and hold the named asset.
pub open spec fn burn_accounts_valid(ctx: BurnTokens) -> bool {
    &&& ctx.user_token_account.owner == (Address::External { key: ctx.burner })
    &&& ctx.user_token_account.mint == ctx.token_mint
}

/// The whole wallet burn, as one transition on the snapshot: `amount`
/// tokens are destroyed from the caller's balance under the caller's own
/// authority. The ledger refuses to burn more than the account holds; that
/// refusal surfaces as `InsufficientFunds`.
pub open spec fn burn_tokens_result(
    ctx: BurnTokens,
    amount: u64,
) -> Result<BurnTokensOutcome, LockerError> {
    if !burn_accounts_valid(ctx) {
        Err(LockerError::InvalidAuthority)
    } else if amount == 0 {
        Err(LockerError::ZeroAmount)
    } else if amount > ctx.user_token_account.amount {
        Err(LockerError::InsufficientFunds)
    } else {
        Ok(BurnTokensOutcome {
            user_token_account: TokenAccount {
                amount: (ctx.user_token_account.amount - amount) as u64,
                ..ctx.user_token_account
            },
            event: TokensBurned { burner: ctx.burner, mint: ctx.token_mint, amount },
        })
    }
}

/// Burns `amount > 0` tokens from the caller's own balance and reports the
/// burn. No lock record is involved.
pub fn handle_burn_tokens(ctx: BurnTokens, amount: u64) -> (r: Result<
    BurnTokensOutcome,
    LockerError,
>)
    ensures
        r == burn_tokens_result(ctx, amount),
{
    if ctx.user_token_account.owner != (Address::External { key: ctx.burner })
        || ctx.user_token_account.mint != ctx.token_mint
    {
        return Err(LockerError::InvalidAuthority);
    }
    if amount == 0 {
        return Err(LockerError::ZeroAmount);
    }
    if amount > ctx.user_token_account.amount {
        return Err(LockerError::InsufficientFunds);
    }
    Ok(BurnTokensOutcome {
        user_token_account: TokenAccount {
            amount: ctx.user_token_account.amount - amount,
            ..ctx.user_token_account
        },
        event: TokensBurned { burner: ctx.burner, mint: ctx.token_mint, amount },
    })
}

} // verus!
