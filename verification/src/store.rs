//! The record store: durable bytes and a deposit under each address. An
//! address holds at most one record, so a second creation at an occupied
//! address fails rather than overwrite.

use vstd::prelude::*;
use crate::codec::RecordKind;
use crate::error::InvoiceError;
use crate::identity::Pubkey;

verus! {

/// One stored record: its address, its kind, its bytes, and the deposit
/// that was paid in when it was created.
#[derive(Clone, Debug, PartialEq, Eq)]
pub struct StoreEntry {
    pub key: Pubkey,
    pub kind: RecordKind,
    pub data: Vec<u8>,
    pub lamports: u64,
}

/// What the store holds under one address.
pub ghost struct StoredRecord {
    pub kind: RecordKind,
    pub data: Seq<u8>,
    pub lamports: u64,
}

impl View for StoreEntry {
    type V = StoredRecord;

    open spec fn view(&self) -> StoredRecord {
        StoredRecord { kind: self.kind, data: self.data@, lamports: self.lamports }
    }
}

/// The bytes of the record of kind `kind` at `key`.
pub open spec fn spec_read(store: Map<Pubkey, StoredRecord>, key: Pubkey, kind: RecordKind) -> Result<
    Seq<u8>,
    InvoiceError,
> {
    if !store.contains_key(key) {
        Err(InvoiceError::NotFound)
    } else if store[key].kind != kind {
        Err(InvoiceError::UnknownRecordType)
    } else {
        Ok(store[key].data)
    }
}

/// Whether two kinds are the same.
pub fn same_kind(a: RecordKind, b: RecordKind) -> (same: bool)
    ensures
        same == (a == b),
{
    match (a, b) {
        (RecordKind::OrgConfig, RecordKind::OrgConfig) => true,
        (RecordKind::InvoiceRequest, RecordKind::InvoiceRequest) => true,
        (RecordKind::InvoiceAccount, RecordKind::InvoiceAccount) => true,
        (RecordKind::VendorAccount, RecordKind::VendorAccount) => true,
        _ => false,
    }
}

/// A keyed store of records. Its view is the map from address to what is
/// stored there.
pub struct RecordStore {
    entries: Vec<StoreEntry>,
    model: Ghost<Map<Pubkey, StoredRecord>>,
}

impl View for RecordStore {
    type V = Map<Pubkey, StoredRecord>;

    closed spec fn view(&self) -> Map<Pubkey, StoredRecord> {
        self.model@
    }
}

impl RecordStore {
    /// The entries and the map agree, and no address occurs twice.
    pub closed spec fn wf(&self) -> bool {
        &&& forall|i: int|
            0 <= i < self.entries@.len() ==> {
                &&& self.model@.contains_key(#[trigger] self.entries@[i].key)
                &&& self.model@[self.entries@[i].key] == self.entries@[i]@
            }
        &&& forall|key: Pubkey| #[trigger]
            self.model@.contains_key(key) ==> exists|i: int|
                0 <= i < self.entries@.len() && self.entries@[i].key == key
        &&& forall|i: int, j: int|
            0 <= i < j < self.entries@.len() ==> self.entries@[i].key != self.entries@[j].key
    }

    /// The addresses in the order in which their records were created.
    pub closed spec fn spec_keys(&self) -> Seq<Pubkey> {
        Seq::new(self.entries@.len(), |i: int| self.entries@[i].key)
    }

    /// The addresses listed are exactly those at which a record lives, each
    /// listed once.
    pub proof fn lemma_keys_are_the_addresses(&self)
        requires
            self.wf(),
        ensures
            forall|key: Pubkey| self@.contains_key(key) <==> self.spec_keys().contains(key),
            self.spec_keys().no_duplicates(),
    {
        let keys = self.spec_keys();
        assert forall|key: Pubkey| self@.contains_key(key) <==> keys.contains(key) by {
            if self@.contains_key(key) {
                let i = choose|i: int| 0 <= i < self.entries@.len() && self.entries@[i].key == key;
                assert(keys[i] == key);
            }
            if keys.contains(key) {
                let i = choose|i: int| 0 <= i < keys.len() && keys[i] == key;
                assert(self.model@.contains_key(self.entries@[i].key));
            }
        }
        assert forall|i: int, j: int| 0 <= i < keys.len() && 0 <= j < keys.len() && i != j implies keys[i]
            != keys[j] by {
            if i < j {
                assert(self.entries@[i].key != self.entries@[j].key);
            } else {
                assert(self.entries@[j].key != self.entries@[i].key);
            }
        }
    }

    /// An empty store.
    pub fn new() -> (store: RecordStore)
        ensures
            store.wf(),
            store@ == Map::<Pubkey, StoredRecord>::empty(),
    {
        RecordStore { entries: Vec::new(), model: Ghost(Map::empty()) }
    }

    fn position(&self, key: &Pubkey) -> (found: Option<usize>)
        requires
            self.wf(),
        ensures
            found is Some <==> self@.contains_key(*key),
            found matches Some(i) ==> i < self.entries@.len() && self.entries@[i as int].key
                == *key,
    {
        let mut i: usize = 0;
        while i < self.entries.len()
            invariant
                self.wf(),
                i <= self.entries@.len(),
                forall|j: int| 0 <= j < i ==> self.entries@[j].key != *key,
            decreases self.entries@.len() - i,
        {
            if self.entries[i].key.equals(key) {
                return Some(i);
            }
            i += 1;
        }
        None
    }

    /// The number of records.
    pub fn len(&self) -> (n: usize)
        requires
            self.wf(),
        ensures
            n == self.spec_keys().len(),
    {
        self.entries.len()
    }

    /// Whether a record lives at `key`.
    pub fn contains(&self, key: &Pubkey) -> (present: bool)
        requires
            self.wf(),
        ensures
            present == self@.contains_key(*key),
    {
        self.position(key).is_some()
    }

    /// The record stored at `key`.
    pub fn get(&self, key: &Pubkey) -> (r: Result<&StoreEntry, InvoiceError>)
        requires
            self.wf(),
        ensures
            match r {
                Ok(entry) => self@.contains_key(*key) && entry.key == *key && entry@ == self@[*key],
                Err(e) => !self@.contains_key(*key) && e == InvoiceError::NotFound,
            },
    {
        match self.position(key) {
            Some(i) => Ok(&self.entries[i]),
            None => Err(InvoiceError::NotFound),
        }
    }

    /// The bytes of the record of kind `kind` stored at `key`.
    pub fn read(&self, key: &Pubkey, kind: RecordKind) -> (r: Result<&Vec<u8>, InvoiceError>)
        requires
            self.wf(),
        ensures
            match spec_read(self@, *key, kind) {
                Ok(data) => r matches Ok(found) && found@ == data,
                Err(e) => r == Err::<&Vec<u8>, InvoiceError>(e),
            },
    {
        match self.position(key) {
            Some(i) => if same_kind(self.entries[i].kind, kind) {
                Ok(&self.entries[i].data)
            } else {
                Err(InvoiceError::UnknownRecordType)
            },
            None => Err(InvoiceError::NotFound),
        }
    }

    /// The deposit held at `key`.
    pub fn lamports(&self, key: &Pubkey) -> (r: Option<u64>)
        requires
            self.wf(),
        ensures
            match r {
                Some(lamports) => self@.contains_key(*key) && lamports == self@[*key].lamports,
                None => !self@.contains_key(*key),
            },
    {
        match self.position(key) {
            Some(i) => Some(self.entries[i].lamports),
            None => None,
        }
    }

    /// The address and bytes of the record created `index`-th among those
    /// that live.
    pub fn entry_at(&self, index: usize) -> (entry: &StoreEntry)
        requires
            self.wf(),
            index < self.spec_keys().len(),
        ensures
            entry.key == self.spec_keys()[index as int],
            self@.contains_key(entry.key),
            self@[entry.key] == entry@,
    {
        &self.entries[index]
    }

    /// Stores a new record at `key`, which must be free.
    pub fn create(
        &mut self,
        key: Pubkey,
        kind: RecordKind,
        data: Vec<u8>,
        lamports: u64,
    ) -> (r: Result<(), InvoiceError>)
        requires
            old(self).wf(),
        ensures
            final(self).wf(),
            r == (if old(self)@.contains_key(key) {
                Err::<(), InvoiceError>(InvoiceError::AlreadyExists)
            } else {
                Ok::<(), InvoiceError>(())
            }),
            final(self)@ == (if old(self)@.contains_key(key) {
                old(self)@
            } else {
                old(self)@.insert(key, StoredRecord { kind, data: data@, lamports })
            }),
    {
        if self.position(&key).is_some() {
            return Err(InvoiceError::AlreadyExists);
        }
        let ghost record = StoredRecord { kind, data: data@, lamports };
        let ghost before = self.entries@;
        self.entries.push(StoreEntry { key, kind, data, lamports });
        self.model = Ghost(self.model@.insert(key, record));
        proof {
            assert forall|k: Pubkey| #[trigger] self.model@.contains_key(k) implies exists|i: int|
                0 <= i < self.entries@.len() && self.entries@[i].key == k by {
                if k == key {
                    assert(self.entries@[before.len() as int].key == k);
                } else {
                    let i = choose|i: int| 0 <= i < before.len() && before[i].key == k;
                    assert(self.entries@[i].key == k);
                }
            }
        }
        Ok(())
    }

    /// Replaces the bytes of the record at `key`; its kind and its deposit
    /// stay.
    pub fn update(&mut self, key: &Pubkey, data: Vec<u8>) -> (r: Result<(), InvoiceError>)
        requires
            old(self).wf(),
        ensures
            final(self).wf(),
            r == (if old(self)@.contains_key(*key) {
                Ok::<(), InvoiceError>(())
            } else {
                Err::<(), InvoiceError>(InvoiceError::NotFound)
            }),
            final(self)@ == (if old(self)@.contains_key(*key) {
                old(self)@.insert(
                    *key,
                    StoredRecord {
                        kind: old(self)@[*key].kind,
                        data: data@,
                        lamports: old(self)@[*key].lamports,
                    },
                )
            } else {
                old(self)@
            }),
    {
        let i = match self.position(key) {
            Some(i) => i,
            None => {
                return Err(InvoiceError::NotFound);
            },
        };
        let lamports: u64 = self.entries[i].lamports;
        let kind: RecordKind = self.entries[i].kind;
        let ghost record = StoredRecord { kind, data: data@, lamports };
        let ghost before = self.entries@;
        self.entries.set(i, StoreEntry { key: *key, kind, data, lamports });
        self.model = Ghost(self.model@.insert(*key, record));
        proof {
            assert forall|k: Pubkey| #[trigger] self.model@.contains_key(k) implies exists|j: int|
                0 <= j < self.entries@.len() && self.entries@[j].key == k by {
                if k == *key {
                    assert(self.entries@[i as int].key == k);
                } else {
                    let j = choose|j: int| 0 <= j < before.len() && before[j].key == k;
                    assert(self.entries@[j].key == k);
                }
            }
        }
        Ok(())
    }

    /// Destroys the record at `key` and hands back the deposit it held.
    pub fn delete(&mut self, key: &Pubkey) -> (r: Result<u64, InvoiceError>)
        requires
            old(self).wf(),
        ensures
            final(self).wf(),
            r == (if old(self)@.contains_key(*key) {
                Ok::<u64, InvoiceError>(old(self)@[*key].lamports)
            } else {
                Err::<u64, InvoiceError>(InvoiceError::NotFound)
            }),
            final(self)@ == (if old(self)@.contains_key(*key) {
                old(self)@.remove(*key)
            } else {
                old(self)@
            }),
    {
        let i = match self.position(key) {
            Some(i) => i,
            None => {
                return Err(InvoiceError::NotFound);
            },
        };
        let ghost before = self.entries@;
        let entry = self.entries.remove(i);
        self.model = Ghost(self.model@.remove(*key));
        proof {
            assert forall|j: int| 0 <= j < self.entries@.len() implies {
                &&& self.model@.contains_key(#[trigger] self.entries@[j].key)
                &&& self.model@[self.entries@[j].key] == self.entries@[j]@
            } by {
                if j < i {
                    assert(self.entries@[j] == before[j]);
                } else {
                    assert(self.entries@[j] == before[j + 1]);
                }
            }
            assert forall|k: Pubkey| #[trigger] self.model@.contains_key(k) implies exists|j: int|
                0 <= j < self.entries@.len() && self.entries@[j].key == k by {
                let j = choose|j: int| 0 <= j < before.len() && before[j].key == k;
                if j < i {
                    assert(self.entries@[j].key == k);
                } else {
                    assert(self.entries@[j - 1].key == k);
                }
            }
            assert forall|a: int, b: int| 0 <= a < b < self.entries@.len() implies self.entries@[a].key
                != self.entries@[b].key by {
                let a0 = if a < i { a } else { a + 1 };
                let b0 = if b < i { b } else { b + 1 };
                assert(self.entries@[a] == before[a0]);
                assert(self.entries@[b] == before[b0]);
            }
        }
        Ok(entry.lamports)
    }
}

} // verus!
