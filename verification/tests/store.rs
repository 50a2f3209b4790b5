use dloom_locker::authority::derive_vault_address;
use dloom_locker::lock_record::LockRecord;
use dloom_locker::lock_store::LockStore;

fn record(owner: u64, mint: u64, lock_id: u64, amount: u64) -> LockRecord {
    LockRecord {
        bump: 250,
        owner,
        mint,
        vault: derive_vault_address(owner, mint, lock_id),
        amount,
        unlock_timestamp: 1_500,
        id: lock_id,
    }
}

#[test]
fn store_finds_what_was_inserted() {
    let mut store = LockStore::new();
    assert!(store.insert(record(1, 2, 3, 100)));
    assert!(store.insert(record(1, 2, 4, 200)));
    assert_eq!(store.get(1, 2, 3), Some(record(1, 2, 3, 100)));
    assert_eq!(store.get(1, 2, 4), Some(record(1, 2, 4, 200)));
    assert_eq!(store.get(1, 2, 5), None);
    assert_eq!(store.get(9, 2, 3), None);
}

#[test]
fn store_refuses_a_second_record_per_key() {
    let mut store = LockStore::new();
    assert!(store.insert(record(1, 2, 3, 100)));
    assert!(!store.insert(record(1, 2, 3, 999)));
    // The first record is untouched.
    assert_eq!(store.get(1, 2, 3), Some(record(1, 2, 3, 100)));
}

#[test]
fn store_removes_only_the_named_key() {
    let mut store = LockStore::new();
    assert!(store.insert(record(1, 2, 3, 100)));
    assert!(store.insert(record(1, 2, 4, 200)));
    assert!(store.remove(1, 2, 3));
    assert_eq!(store.get(1, 2, 3), None);
    assert_eq!(store.get(1, 2, 4), Some(record(1, 2, 4, 200)));
    // Removing again reports that nothing was there.
    assert!(!store.remove(1, 2, 3));
}

#[test]
fn store_replace_commits_a_reduced_balance() {
    let mut store = LockStore::new();
    assert!(store.insert(record(1, 2, 3, 100)));
    assert!(store.replace(record(1, 2, 3, 40)));
    assert_eq!(store.get(1, 2, 3), Some(record(1, 2, 3, 40)));
    // A key never created cannot be replaced.
    assert!(!store.replace(record(7, 2, 3, 40)));
    assert_eq!(store.get(7, 2, 3), None);
}
