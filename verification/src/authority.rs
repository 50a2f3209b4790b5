//! Authority derivation.
//!
//! Every lifecycle operation authenticates itself by re-deriving, from the
//! caller-supplied (owner, mint, lock id) key, the address of the lock record
//! and of its vault, and comparing against the stored state. An address is
//! modelled as its derivation: external identities (wallets, mints) live in
//! their own namespace, and a derived record or vault address carries exactly
//! the key it was derived from. Determinism is then definitional, and
//! collision freedom — distinct keys give distinct addresses, and no derived
//! address ever collides with an external one — is proved below.

use vstd::prelude::*;

verus! {

/// An address in the locker's account space.
///
/// `External` addresses are platform-assigned identities (wallets, mints).
/// `Record` and `Vault` addresses exist only by derivation from an
/// (owner, mint, lock id) key.
#[derive(Clone, Copy, Debug, PartialEq, Eq, Hash, Structural)]
pub enum Address {
    External { key: u64 },
    Record { owner: u64, mint: u64, lock_id: u64 },
    Vault { owner: u64, mint: u64, lock_id: u64 },
}

/// The address of the lock record for a given (owner, mint, lock id) key.
pub open spec fn record_address(owner: u64, mint: u64, lock_id: u64) -> Address {
    Address::Record { owner, mint, lock_id }
}

/// The address of the vault custodying the tokens of a given key's record.
pub open spec fn vault_address(owner: u64, mint: u64, lock_id: u64) -> Address {
    Address::Vault { owner, mint, lock_id }
}

/// Derives the unique lock record address for an (owner, mint, lock id) key.
pub fn derive_record_address(owner: u64, mint: u64, lock_id: u64) -> (a: Address)
    ensures
        a == record_address(owner, mint, lock_id),
{
    Address::Record { owner, mint, lock_id }
}

/// Derives the unique vault address for an (owner, mint, lock id) key.
pub fn derive_vault_address(owner: u64, mint: u64, lock_id: u64) -> (a: Address)
    ensures
        a == vault_address(owner, mint, lock_id),
{
    Address::Vault { owner, mint, lock_id }
}

/// The signing authority over a vault is the lock record it belongs to:
/// the record itself signs every ledger call made on the vault's behalf.
pub open spec fn vault_authority(owner: u64, mint: u64, lock_id: u64) -> Address {
    record_address(owner, mint, lock_id)
}

/// Derivation is deterministic and collision-free: two keys derive the same
/// record address exactly when they are the same key.
pub proof fn lemma_record_address_injective(
    owner1: u64, mint1: u64, lock_id1: u64,
    owner2: u64, mint2: u64, lock_id2: u64,
)
    ensures
        record_address(owner1, mint1, lock_id1) == record_address(owner2, mint2, lock_id2)
            <==> (owner1 == owner2 && mint1 == mint2 && lock_id1 == lock_id2),
{
}

/// Vault addresses are collision-free in the same way.
pub proof fn lemma_vault_address_injective(
    owner1: u64, mint1: u64, lock_id1: u64,
    owner2: u64, mint2: u64, lock_id2: u64,
)
    ensures
        vault_address(owner1, mint1, lock_id1) == vault_address(owner2, mint2, lock_id2)
            <==> (owner1 == owner2 && mint1 == mint2 && lock_id1 == lock_id2),
{
}

/// A derived address never collides with an external identity, and a record
/// address never collides with a vault address.
pub proof fn lemma_derived_addresses_distinct(owner: u64, mint: u64, lock_id: u64, key: u64)
    ensures
        record_address(owner, mint, lock_id) != (Address::External { key }),
        vault_address(owner, mint, lock_id) != (Address::External { key }),
        record_address(owner, mint, lock_id) != vault_address(owner, mint, lock_id),
{
}

} // verus!
