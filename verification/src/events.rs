//! Notifications emitted by successful operations.
//!
//! These are the durable audit trail external observers rely on: their field
//! names and presence are part of the compatibility surface. Each operation's
//! contract states the event it produces exactly.

use vstd::prelude::*;

verus! {

/// Emitted by a successful lock creation. `amount` is the amount actually
/// credited to the vault, not the requested amount.
#[derive(Clone, Copy, Debug, PartialEq, Eq, Structural)]
pub struct TokensLocked {
    pub owner: u64,
    pub mint: u64,
    pub amount: u64,
    pub unlock_timestamp: i64,
}

/// Emitted by a successful withdrawal, carrying the amount actually withdrawn.
#[derive(Clone, Copy, Debug, PartialEq, Eq, Structural)]
pub struct TokensWithdrawn {
    pub owner: u64,
    pub mint: u64,
    pub amount: u64,
}

/// Emitted by a successful burn from the caller's own wallet.
#[derive(Clone, Copy, Debug, PartialEq, Eq, Structural)]
pub struct TokensBurned {
    pub burner: u64,
    pub mint: u64,
    pub amount: u64,
}

/// Emitted by a successful burn out of an active lock's vault.
#[derive(Clone, Copy, Debug, PartialEq, Eq, Structural)]
pub struct LockedTokensBurned {
    pub owner: u64,
    pub mint: u64,
    pub amount: u64,
    pub lock_id: u64,
}

/// The single aggregate notification of a batch burn, listing every affected
/// mint and the amount burned from it.
#[derive(Clone, Debug, PartialEq, Eq)]
pub struct BatchTokensBurned {
    pub burner: u64,
    pub mints: Vec<u64>,
    pub amounts: Vec<u64>,
}

} // verus!
