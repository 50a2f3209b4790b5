//! The lock record store: one durable record per (owner, mint, lock id) key.
//!
//! The store owns two invariants: no two records share a key, and every
//! record is well formed. Creation refuses a key that is already present,
//! which is the "no existing record at the derived address" validation of
//! Create; teardown removes the record.

use vstd::prelude::*;

use crate::lock_record::LockRecord;

verus! {

/// Whether a record belongs to the (owner, mint, lock id) key.
pub open spec fn key_matches(r: LockRecord, owner: u64, mint: u64, lock_id: u64) -> bool {
    r.owner == owner && r.mint == mint && r.id == lock_id
}

/// The durable set of lock records.
pub struct LockStore {
    records: Vec<LockRecord>,
}

impl LockStore {
    /// The records currently stored.
    pub closed spec fn view(self) -> Seq<LockRecord> {
        self.records@
    }

    /// The store's invariants: keys are unique and every record is well
    /// formed. Every operation below preserves this.
    pub open spec fn wf(self) -> bool {
        &&& forall|i: int, j: int|
            #![trigger self@[i], self@[j]]
            0 <= i < j < self@.len() ==> !key_matches(
                self@[i],
                self@[j].owner,
                self@[j].mint,
                self@[j].id,
            )
        &&& forall|i: int| 0 <= i < self@.len() ==> (#[trigger] self@[i]).wf()
    }

    /// Whether some record is stored under the key.
    pub open spec fn has_record(self, owner: u64, mint: u64, lock_id: u64) -> bool {
        exists|i: int| 0 <= i < self@.len() && key_matches(#[trigger] self@[i], owner, mint, lock_id)
    }

    /// An empty store.
    pub fn new() -> (s: LockStore)
        ensures
            s.wf(),
            s@ == Seq::<LockRecord>::empty(),
    {
        LockStore { records: Vec::new() }
    }

    /// Looks the key's record up.
    pub fn get(&self, owner: u64, mint: u64, lock_id: u64) -> (r: Option<LockRecord>)
        ensures
            match r {
                Some(rec) => {
                    &&& self.has_record(owner, mint, lock_id)
                    &&& self@.contains(rec)
                    &&& key_matches(rec, owner, mint, lock_id)
                },
                None => !self.has_record(owner, mint, lock_id),
            },
    {
        let n = self.records.len();
        for i in 0..n
            invariant
                n == self@.len(),
                forall|j: int|
                    0 <= j < i ==> !key_matches(#[trigger] self@[j], owner, mint, lock_id),
        {
            let rec = self.records[i];
            if rec.owner == owner && rec.mint == mint && rec.id == lock_id {
                return Some(rec);
            }
        }
        None
    }

    /// Stores a new record. Refuses a key that is already present and then
    /// changes nothing, as the platform refuses to initialize an existing
    /// account.
    pub fn insert(&mut self, record: LockRecord) -> (r: bool)
        requires
            old(self).wf(),
            record.wf(),
        ensures
            final(self).wf(),
            r == !old(self).has_record(record.owner, record.mint, record.id),
            r ==> final(self)@ == old(self)@.push(record),
            !r ==> final(self)@ == old(self)@,
    {
        if self.get(record.owner, record.mint, record.id).is_some() {
            return false;
        }
        self.records.push(record);
        true
    }

    /// Removes the key's record, if any, and says whether one was there.
    /// Every other record stays.
    pub fn remove(&mut self, owner: u64, mint: u64, lock_id: u64) -> (r: bool)
        requires
            old(self).wf(),
        ensures
            final(self).wf(),
            r == old(self).has_record(owner, mint, lock_id),
            !final(self).has_record(owner, mint, lock_id),
            forall|rec: LockRecord|
                #[trigger] final(self)@.contains(rec) <==> (old(self)@.contains(rec) && !key_matches(
                    rec,
                    owner,
                    mint,
                    lock_id,
                )),
    {
        let n = self.records.len();
        for i in 0..n
            invariant
                n == self@.len(),
                self@ == old(self)@,
                old(self).wf(),
                forall|j: int|
                    0 <= j < i ==> !key_matches(#[trigger] self@[j], owner, mint, lock_id),
        {
            let rec = self.records[i];
            if rec.owner == owner && rec.mint == mint && rec.id == lock_id {
                self.records.remove(i);
                proof {
                    assert forall|r2: LockRecord| #[trigger]
                        self@.contains(r2) implies (old(self)@.contains(r2) && !key_matches(
                        r2,
                        owner,
                        mint,
                        lock_id,
                    )) by {
                        let k = choose|k: int| 0 <= k < self@.len() && self@[k] == r2;
                        if k < i {
                            assert(old(self)@[k] == r2);
                        } else {
                            assert(old(self)@[k + 1] == r2);
                        }
                    }
                    assert forall|r2: LockRecord|
                        old(self)@.contains(r2) && !key_matches(
                            r2,
                            owner,
                            mint,
                            lock_id,
                        ) implies #[trigger] self@.contains(r2) by {
                        let k = choose|k: int| 0 <= k < old(self)@.len() && old(self)@[k] == r2;
                        if k < i {
                            assert(self@[k] == r2);
                        } else {
                            assert(k != i);
                            assert(self@[k - 1] == r2);
                        }
                    }
                    assert(!self.has_record(owner, mint, lock_id)) by {
                        if self.has_record(owner, mint, lock_id) {
                            let k = choose|k: int|
                                0 <= k < self@.len() && key_matches(
                                    self@[k],
                                    owner,
                                    mint,
                                    lock_id,
                                );
                            assert(self@.contains(self@[k]));
                        }
                    }
                }
                return true;
            }
        }
        proof {
            assert(!old(self).has_record(owner, mint, lock_id));
        }
        false
    }

    /// Replaces the key's record with `record`, which must carry the same
    /// key: how a withdrawal or a lock-scoped burn commits a reduced locked
    /// balance.
    pub fn replace(&mut self, record: LockRecord) -> (r: bool)
        requires
            old(self).wf(),
            record.wf(),
        ensures
            final(self).wf(),
            r == old(self).has_record(record.owner, record.mint, record.id),
            r ==> final(self).has_record(record.owner, record.mint, record.id),
            r ==> final(self)@.contains(record),
    {
        let removed = self.remove(record.owner, record.mint, record.id);
        if !removed {
            return false;
        }
        let inserted = self.insert(record);
        proof {
            assert(self@.contains(record)) by {
                assert(self@.last() == record);
            }
        }
        inserted
    }
}

} // verus!
