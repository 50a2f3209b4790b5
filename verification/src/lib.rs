//! A time-locked custody vault for fungible tokens.
//!
//! A holder deposits tokens into an escrow record that cannot be withdrawn
//! before a configured unlock time. The library is the lock lifecycle engine:
//! it decides, from a snapshot of durable state and from what the external
//! token ledger reports, whether each operation may proceed and what the next
//! durable state is. The ledger itself (transfers, burns, account teardown)
//! and the clock are external collaborators; their observations enter every
//! operation as plain arguments, and every outcome is stated exactly in the
//! operation's contract.

pub mod authority;
pub mod burn_batch;
pub mod burn_from_lock;
pub mod burn_tokens;
pub mod close_vault;
pub mod errors;
pub mod events;
pub mod laws;
pub mod lock_record;
pub mod lock_store;
pub mod lock_tokens;
pub mod token_account;
pub mod withdraw_tokens;

pub use burn_tokens::handle_burn_tokens as handle_burn_from_wallet;
