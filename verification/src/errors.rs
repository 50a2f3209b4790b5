//! The error taxonomy of the locker.

use vstd::prelude::*;

verus! {

/// Every way a locker operation can refuse to run.
///
/// Validation errors (`ZeroAmount`, `UnlockDateInPast`, `LockDurationTooLong`,
/// `InsufficientFunds`, `BurnAmountExceedsLocked`, `InvalidBatchAccounts`) are
/// caller mistakes; state-precondition errors (`StillLocked`,
/// `CannotCloseWithheldFees`) mean the record is valid but currently
/// ineligible and the caller must retry later; `InvalidAuthority` means the
/// supplied accounts do not match what the operation re-derives from the
/// caller-supplied key; `MathOverflow` is a defensive arithmetic guard.
/// No operation mutates any state when it returns an error.
#[derive(Clone, Copy, Debug, PartialEq, Eq, Structural)]
pub enum LockerError {
    UnlockDateInPast,
    ZeroAmount,
    StillLocked,
    LockDurationTooLong,
    CannotCloseWithheldFees,
    BurnAmountExceedsLocked,
    InsufficientFunds,
    InvalidBatchAccounts,
    InvalidAuthority,
    MathOverflow,
}

} // verus!
