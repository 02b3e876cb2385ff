//! The store adapter: a versioned key-value store of VM records with
//! compare-and-swap writes, and the ghost theory of record sequences that
//! every contract of the registry is stated over.

use vstd::prelude::*;
use crate::record::{Addresses, AddressesModel, RecordModel, VmRecord, VmState};

verus! {

/// The record stored under `name`, if any: the first record of `s` whose
/// name matches.
pub open spec fn lookup(s: Seq<RecordModel>, name: Seq<char>) -> Option<RecordModel>
    decreases s.len(),
{
    if s.len() == 0 {
        None
    } else if s.first().name == name {
        Some(s.first())
    } else {
        lookup(s.drop_first(), name)
    }
}

/// `s` with the first record stored under `name` replaced by `r`;
/// `s` itself when no record carries that name.
pub open spec fn replace_record(s: Seq<RecordModel>, name: Seq<char>, r: RecordModel) -> Seq<
    RecordModel,
>
    decreases s.len(),
{
    if s.len() == 0 {
        s
    } else if s.first().name == name {
        seq![r] + s.drop_first()
    } else {
        seq![s.first()] + replace_record(s.drop_first(), name, r)
    }
}

/// `s` with the first record stored under `name` removed;
/// `s` itself when no record carries that name.
pub open spec fn remove_record(s: Seq<RecordModel>, name: Seq<char>) -> Seq<RecordModel>
    decreases s.len(),
{
    if s.len() == 0 {
        s
    } else if s.first().name == name {
        s.drop_first()
    } else {
        seq![s.first()] + remove_record(s.drop_first(), name)
    }
}

/// No two records of `s` share a name.
pub open spec fn names_unique(s: Seq<RecordModel>) -> bool {
    forall|i: int, j: int| 0 <= i < j < s.len() ==> s[i].name != s[j].name
}

/// No record of `s` holds the ip or the vsock of `a`.
pub open spec fn addrs_free(s: Seq<RecordModel>, a: AddressesModel) -> bool {
    forall|i: int|
        0 <= i < s.len() ==> s[i].addresses.ip != a.ip && s[i].addresses.vsock != a.vsock
}

/// No two records of `s` share an ip or a vsock address.
pub open spec fn addrs_unique(s: Seq<RecordModel>) -> bool {
    forall|i: int, j: int|
        0 <= i < j < s.len() ==> s[i].addresses.ip != s[j].addresses.ip
            && s[i].addresses.vsock != s[j].addresses.vsock
}

/// Every record of `s` is live: the terminal state is never stored.
pub open spec fn states_live(s: Seq<RecordModel>) -> bool {
    forall|i: int| 0 <= i < s.len() ==> s[i].state != VmState::Unregistered
}

/// When `i` is the first index of `s` carrying `name`, the lookup finds
/// exactly the record at `i`.
pub proof fn lemma_lookup_at(s: Seq<RecordModel>, name: Seq<char>, i: int)
    requires
        0 <= i < s.len(),
        s[i].name == name,
        forall|j: int| 0 <= j < i ==> s[j].name != name,
    ensures
        lookup(s, name) == Some(s[i]),
    decreases s.len(),
{
    if i > 0 {
        assert(forall|j: int| 0 <= j < i - 1 ==> s.drop_first()[j] == s[j + 1]);
        lemma_lookup_at(s.drop_first(), name, i - 1);
    }
}

/// When no record of `s` carries `name`, the lookup finds nothing.
pub proof fn lemma_lookup_absent(s: Seq<RecordModel>, name: Seq<char>)
    requires
        forall|j: int| 0 <= j < s.len() ==> s[j].name != name,
    ensures
        lookup(s, name) is None,
    decreases s.len(),
{
    if s.len() > 0 {
        assert(forall|j: int| 0 <= j < s.len() - 1 ==> s.drop_first()[j] == s[j + 1]);
        lemma_lookup_absent(s.drop_first(), name);
    }
}

/// A successful lookup pins down the first index carrying `name`.
pub proof fn lemma_lookup_some_index(s: Seq<RecordModel>, name: Seq<char>)
    requires
        lookup(s, name) is Some,
    ensures
        exists|i: int|
            0 <= i < s.len() && s[i] == lookup(s, name).unwrap() && s[i].name == name && (forall|
                j: int,
            | 0 <= j < i ==> s[j].name != name),
    decreases s.len(),
{
    if s.first().name == name {
        assert(0 <= 0 < s.len() && s[0] == lookup(s, name).unwrap() && s[0].name == name && (
        forall|j: int| 0 <= j < 0 ==> s[j].name != name));
    } else {
        lemma_lookup_some_index(s.drop_first(), name);
        let i = choose|i: int|
            0 <= i < s.drop_first().len() && s.drop_first()[i] == lookup(
                s.drop_first(),
                name,
            ).unwrap() && s.drop_first()[i].name == name && (forall|j: int|
                0 <= j < i ==> s.drop_first()[j].name != name);
        assert(forall|j: int| 1 <= j < i + 1 ==> s[j] == s.drop_first()[j - 1]);
        assert(0 <= i + 1 < s.len() && s[i + 1] == lookup(s, name).unwrap() && s[i + 1].name
            == name && (forall|j: int| 0 <= j < i + 1 ==> s[j].name != name));
    }
}

/// When a lookup finds nothing, no record of `s` carries `name`.
pub proof fn lemma_lookup_none_absent(s: Seq<RecordModel>, name: Seq<char>)
    requires
        lookup(s, name) is None,
    ensures
        forall|j: int| 0 <= j < s.len() ==> s[j].name != name,
    decreases s.len(),
{
    if s.len() > 0 {
        lemma_lookup_none_absent(s.drop_first(), name);
        assert(forall|j: int| 1 <= j < s.len() ==> s[j] == s.drop_first()[j - 1]);
    }
}

/// Replacing at the first index carrying `name` is a pointwise update.
pub proof fn lemma_replace_at(s: Seq<RecordModel>, name: Seq<char>, r: RecordModel, i: int)
    requires
        0 <= i < s.len(),
        s[i].name == name,
        forall|j: int| 0 <= j < i ==> s[j].name != name,
    ensures
        replace_record(s, name, r) == s.update(i, r),
    decreases s.len(),
{
    if i == 0 {
        assert(replace_record(s, name, r) =~= s.update(0, r));
    } else {
        assert(forall|j: int| 0 <= j < i - 1 ==> s.drop_first()[j] == s[j + 1]);
        lemma_replace_at(s.drop_first(), name, r, i - 1);
        assert(seq![s.first()] + s.drop_first().update(i - 1, r) =~= s.update(i, r));
    }
}

/// Removing at the first index carrying `name` is a pointwise removal.
pub proof fn lemma_remove_at(s: Seq<RecordModel>, name: Seq<char>, i: int)
    requires
        0 <= i < s.len(),
        s[i].name == name,
        forall|j: int| 0 <= j < i ==> s[j].name != name,
    ensures
        remove_record(s, name) == s.remove(i),
    decreases s.len(),
{
    if i == 0 {
        assert(remove_record(s, name) =~= s.remove(0));
    } else {
        assert(forall|j: int| 0 <= j < i - 1 ==> s.drop_first()[j] == s[j + 1]);
        lemma_remove_at(s.drop_first(), name, i - 1);
        assert(seq![s.first()] + s.drop_first().remove(i - 1) =~= s.remove(i));
    }
}

/// A record appended at the end is found only where no earlier record
/// already answers for its name.
pub proof fn lemma_lookup_push(s: Seq<RecordModel>, r: RecordModel, n: Seq<char>)
    ensures
        lookup(s.push(r), n) == if lookup(s, n) is Some {
            lookup(s, n)
        } else if r.name == n {
            Some(r)
        } else {
            None
        },
    decreases s.len(),
{
    if s.len() == 0 {
        assert(s.push(r).first() == r);
        assert(s.push(r).drop_first() =~= Seq::<RecordModel>::empty());
    } else {
        assert(s.push(r).first() == s.first());
        assert(s.push(r).drop_first() =~= s.drop_first().push(r));
        lemma_lookup_push(s.drop_first(), r, n);
    }
}

/// How a replacement under `name` answers lookups: under `name` the new
/// record (where one was stored), elsewhere exactly as before.
pub proof fn lemma_lookup_replace(s: Seq<RecordModel>, name: Seq<char>, r: RecordModel, n: Seq<
    char,
>)
    requires
        r.name == name,
    ensures
        lookup(replace_record(s, name, r), n) == if n == name {
            match lookup(s, name) {
                Some(_) => Some(r),
                None => None::<RecordModel>,
            }
        } else {
            lookup(s, n)
        },
    decreases s.len(),
{
    if s.len() == 0 {
    } else if s.first().name == name {
        let t = seq![r] + s.drop_first();
        assert(t.first() == r);
        assert(t.drop_first() =~= s.drop_first());
    } else {
        let t = seq![s.first()] + replace_record(s.drop_first(), name, r);
        assert(t.first() == s.first());
        assert(t.drop_first() =~= replace_record(s.drop_first(), name, r));
        lemma_lookup_replace(s.drop_first(), name, r, n);
    }
}

/// How a removal under `name` answers lookups, given unique names: nothing
/// under `name`, elsewhere exactly as before.
pub proof fn lemma_lookup_remove(s: Seq<RecordModel>, name: Seq<char>, n: Seq<char>)
    requires
        names_unique(s),
    ensures
        lookup(remove_record(s, name), n) == if n == name {
            None::<RecordModel>
        } else {
            lookup(s, n)
        },
    decreases s.len(),
{
    if s.len() == 0 {
    } else if s.first().name == name {
        assert(forall|j: int| 0 <= j < s.len() - 1 ==> s.drop_first()[j] == s[j + 1]);
        lemma_lookup_absent(s.drop_first(), name);
    } else {
        let t = seq![s.first()] + remove_record(s.drop_first(), name);
        assert(t.first() == s.first());
        assert(t.drop_first() =~= remove_record(s.drop_first(), name));
        assert(forall|j: int| 0 <= j < s.len() - 1 ==> s.drop_first()[j] == s[j + 1]);
        lemma_lookup_remove(s.drop_first(), name, n);
    }
}

/// A found record carries the name it was looked up under.
pub proof fn lemma_lookup_name(s: Seq<RecordModel>, name: Seq<char>)
    requires
        lookup(s, name) is Some,
    ensures
        lookup(s, name).unwrap().name == name,
    decreases s.len(),
{
    if s.len() > 0 && s.first().name != name {
        lemma_lookup_name(s.drop_first(), name);
    }
}

/// The errors of the store adapter's own contract.
#[derive(Clone, Copy, PartialEq, Eq, Structural, Debug)]
pub enum StoreError {
    /// No record is stored under the requested name.
    NotFound,
    /// The stored version differs from the expected one: the conditional
    /// write is rejected.
    VersionConflict,
    /// A record is already stored under the name of a fresh insert.
    AlreadyExists,
}

/// The store adapter: a key-value store of VM records, keyed by name,
/// whose only mutating write paths are a fresh insert, a compare-and-swap
/// against the stored version, and a delete.
pub struct Store {
    records: Vec<VmRecord>,
}

impl View for Store {
    type V = Seq<RecordModel>;

    closed spec fn view(&self) -> Seq<RecordModel> {
        self.records@.map_values(|r: VmRecord| r@)
    }
}

impl Store {
    /// The store never files two records under one name.
    pub open spec fn inv(self) -> bool {
        names_unique(self@)
    }

    /// Creates an empty store.
    pub fn new() -> (s: Store)
        ensures
            s.inv(),
            s@ == Seq::<RecordModel>::empty(),
    {
        let s = Store { records: Vec::new() };
        proof {
            assert(s@ =~= Seq::<RecordModel>::empty());
        }
        s
    }

    /// How many records the store holds.
    pub fn count(&self) -> (n: usize)
        ensures
            n == self@.len(),
    {
        self.records.len()
    }

    /// The first position holding `name`, with everything before it free
    /// of that name.
    fn find_index(&self, name: &String) -> (r: Option<usize>)
        ensures
            match r {
                Some(i) => 0 <= i < self@.len() && self@[i as int].name == name@ && (forall|j: int|
                    0 <= j < i ==> self@[j].name != name@),
                None => forall|j: int| 0 <= j < self@.len() ==> self@[j].name != name@,
            },
    {
        let mut i: usize = 0;
        while i < self.records.len()
            invariant
                i <= self.records.len(),
                forall|j: int| 0 <= j < i ==> self@[j].name != name@,
            decreases self.records.len() - i,
        {
            if self.records[i].name == *name {
                return Some(i);
            }
            i += 1;
        }
        None
    }

    /// Reads the record stored under `name`, if any.
    pub fn get(&self, name: &String) -> (r: Option<VmRecord>)
        ensures
            match r {
                Some(rec) => lookup(self@, name@) == Some(rec@),
                None => lookup(self@, name@) is None,
            },
    {
        match self.find_index(name) {
            Some(i) => {
                proof {
                    lemma_lookup_at(self@, name@, i as int);
                }
                Some(self.records[i].duplicate())
            },
            None => {
                proof {
                    lemma_lookup_absent(self@, name@);
                }
                None
            },
        }
    }

    /// Whether neither the ip nor the vsock of `a` is held by any record.
    pub fn addresses_free(&self, a: &Addresses) -> (b: bool)
        ensures
            b == addrs_free(self@, a@),
    {
        let mut i: usize = 0;
        while i < self.records.len()
            invariant
                i <= self.records.len(),
                forall|j: int|
                    0 <= j < i ==> self@[j].addresses.ip != a@.ip && self@[j].addresses.vsock
                        != a@.vsock,
            decreases self.records.len() - i,
        {
            if self.records[i].addresses.ip == a.ip || self.records[i].addresses.vsock == a.vsock {
                proof {
                    assert(self@[i as int].addresses.ip == a@.ip || self@[i as int].addresses.vsock
                        == a@.vsock);
                }
                return false;
            }
            i += 1;
        }
        true
    }

    /// Files a record under a name not yet taken.
    pub fn put_new(&mut self, rec: VmRecord) -> (r: Result<(), StoreError>)
        requires
            old(self).inv(),
        ensures
            final(self).inv(),
            match r {
                Ok(()) => lookup(old(self)@, rec@.name) is None && final(self)@ == old(
                    self,
                )@.push(rec@),
                Err(e) => e == StoreError::AlreadyExists && lookup(old(self)@, rec@.name) is Some
                    && final(self)@ == old(self)@,
            },
    {
        let ghost m = rec@;
        match self.find_index(&rec.name) {
            Some(i) => {
                proof {
                    lemma_lookup_at(self@, m.name, i as int);
                }
                Err(StoreError::AlreadyExists)
            },
            None => {
                proof {
                    lemma_lookup_absent(self@, m.name);
                }
                self.records.push(rec);
                proof {
                    assert(self@ =~= old(self)@.push(m));
                    assert forall|k: int, l: int|
                        0 <= k < l < self@.len() implies self@[k].name != self@[l].name by {
                        if l < old(self)@.len() {
                            assert(old(self)@[k].name != old(self)@[l].name);
                        } else {
                            assert(self@[l] == m);
                            assert(old(self)@[k].name != m.name);
                        }
                    }
                }
                Ok(())
            },
        }
    }

    /// Writes `rec` over the record stored under `name`, provided the
    /// stored version still equals `expected_version`. The conditional
    /// write is the only path that changes an existing record, so a reader
    /// sees either the record before the swap or the one after it, never
    /// anything in between.
    pub fn compare_and_swap(&mut self, name: &String, expected_version: u64, rec: VmRecord) -> (r:
        Result<(), StoreError>)
        requires
            old(self).inv(),
            rec@.name == name@,
        ensures
            final(self).inv(),
            match r {
                Ok(()) => (lookup(old(self)@, name@) matches Some(c) && c.version
                    == expected_version) && final(self)@ == replace_record(
                    old(self)@,
                    name@,
                    rec@,
                ),
                Err(e) => final(self)@ == old(self)@ && match e {
                    StoreError::NotFound => lookup(old(self)@, name@) is None,
                    StoreError::VersionConflict => lookup(old(self)@, name@) matches Some(c)
                        && c.version != expected_version,
                    StoreError::AlreadyExists => false,
                },
            },
    {
        let ghost m = rec@;
        match self.find_index(name) {
            None => {
                proof {
                    lemma_lookup_absent(self@, name@);
                }
                Err(StoreError::NotFound)
            },
            Some(i) => {
                proof {
                    lemma_lookup_at(self@, name@, i as int);
                }
                if self.records[i].version != expected_version {
                    Err(StoreError::VersionConflict)
                } else {
                    self.records[i] = rec;
                    proof {
                        assert(self@ =~= old(self)@.update(i as int, m));
                        lemma_replace_at(old(self)@, name@, m, i as int);
                        assert forall|k: int, l: int|
                            0 <= k < l < self@.len() implies self@[k].name != self@[l].name by {
                            assert(old(self)@[k].name != old(self)@[l].name);
                            assert(self@[k] == if k == i as int {
                                m
                            } else {
                                old(self)@[k]
                            });
                            assert(self@[l] == if l == i as int {
                                m
                            } else {
                                old(self)@[l]
                            });
                        }
                    }
                    Ok(())
                }
            },
        }
    }

    /// Removes the record stored under `name`.
    pub fn delete(&mut self, name: &String) -> (r: Result<(), StoreError>)
        requires
            old(self).inv(),
        ensures
            final(self).inv(),
            match r {
                Ok(()) => lookup(old(self)@, name@) is Some && final(self)@ == remove_record(
                    old(self)@,
                    name@,
                ),
                Err(e) => e == StoreError::NotFound && lookup(old(self)@, name@) is None
                    && final(self)@ == old(self)@,
            },
    {
        match self.find_index(name) {
            None => {
                proof {
                    lemma_lookup_absent(self@, name@);
                }
                Err(StoreError::NotFound)
            },
            Some(i) => {
                proof {
                    lemma_lookup_at(self@, name@, i as int);
                }
                self.records.remove(i);
                proof {
                    assert(self@ =~= old(self)@.remove(i as int));
                    lemma_remove_at(old(self)@, name@, i as int);
                    assert forall|k: int, l: int|
                        0 <= k < l < self@.len() implies self@[k].name != self@[l].name by {
                        let k0 = if k < i as int {
                            k
                        } else {
                            k + 1
                        };
                        let l0 = if l < i as int {
                            l
                        } else {
                            l + 1
                        };
                        assert(self@[k] == old(self)@[k0]);
                        assert(self@[l] == old(self)@[l0]);
                        assert(old(self)@[k0].name != old(self)@[l0].name);
                    }
                }
                Ok(())
            },
        }
    }

    /// Lists the names of all stored records, in store order.
    pub fn list_keys(&self) -> (r: Vec<String>)
        ensures
            r@.len() == self@.len(),
            forall|i: int| 0 <= i < r@.len() ==> r@[i]@ == self@[i].name,
    {
        let mut keys: Vec<String> = Vec::new();
        let mut i: usize = 0;
        while i < self.records.len()
            invariant
                i <= self.records.len(),
                keys@.len() == i,
                forall|j: int| 0 <= j < i ==> keys@[j]@ == self@[j].name,
            decreases self.records.len() - i,
        {
            keys.push(self.records[i].name.clone());
            i += 1;
        }
        keys
    }

    /// Copies out every stored record, in store order.
    pub fn snapshot(&self) -> (r: Vec<VmRecord>)
        ensures
            r@.len() == self@.len(),
            forall|i: int| 0 <= i < r@.len() ==> r@[i]@ == self@[i],
    {
        let mut out: Vec<VmRecord> = Vec::new();
        let mut i: usize = 0;
        while i < self.records.len()
            invariant
                i <= self.records.len(),
                out@.len() == i,
                forall|j: int| 0 <= j < i ==> out@[j]@ == self@[j],
            decreases self.records.len() - i,
        {
            out.push(self.records[i].duplicate());
            i += 1;
        }
        out
    }
}

} // verus!
