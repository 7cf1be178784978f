//! Records, and the store that resolves them.
//!
//! A record is an action with, where it has one and shows it, the entry the
//! action brought. Records are never changed and never removed: an update or
//! a delete is a new record that names the old one.
//!
//! The store is what a check may consult: the records and entries that the
//! host has resolved. A check only ever reads it.

use vstd::prelude::*;
use crate::action::Action;
use crate::address::Address;
use crate::post::Post;
use crate::publication_role::PublicationRole;
use crate::verdict::Fault;
use crate::{EntryTypes, EntryTypesView};

verus! {

/// The entry of a record, as far as the rules read it.
#[derive(Debug)]
pub enum RecordEntry {
    Post(Post),
    PublicationRole(PublicationRole),
    /// An entry of a type that this ledger does not declare.
    Undeclared,
    /// An entry filed under a declared type whose bytes do not decode to it.
    Undecodable,
    /// The action has no entry, or the entry is private, or it was not kept.
    Absent,
}

impl RecordEntry {
    /// The entry as one of the declared types, where it is one.
    pub open spec fn declared(&self) -> Option<EntryTypesView> {
        match self {
            RecordEntry::Post(post) => Some(EntryTypesView::Post(post@)),
            RecordEntry::PublicationRole(role) => Some(EntryTypesView::PublicationRole(role@)),
            _ => None,
        }
    }

    /// Whether this is `entry`, by content.
    pub fn holds(&self, entry: &EntryTypes) -> (yes: bool)
        ensures
            yes == (self.declared() == Some(entry@)),
    {
        match (self, entry) {
            (RecordEntry::Post(mine), EntryTypes::Post(other)) => *mine == *other,
            (RecordEntry::PublicationRole(mine), EntryTypes::PublicationRole(other)) => *mine
                == *other,
            _ => false,
        }
    }
}

/// One unit of the ledger.
#[derive(Debug)]
pub struct Record {
    /// The address of the record: the hash of its action.
    pub hash: Address,
    pub action: Action,
    pub entry: RecordEntry,
}

/// Whether `records[i]` is the first record filed under `hash`.
pub open spec fn first_at(records: Seq<Record>, hash: Seq<u8>, i: int) -> bool {
    &&& 0 <= i < records.len()
    &&& records[i].hash@ == hash
    &&& forall|j: int| 0 <= j < i ==> (#[trigger] records[j]).hash@ != hash
}

/// The record filed under `hash`: the first, should there be several.
pub open spec fn lookup(records: Seq<Record>, hash: Seq<u8>) -> Option<Record> {
    if exists|i: int| first_at(records, hash, i) {
        Some(records[choose|i: int| first_at(records, hash, i)])
    } else {
        None
    }
}

/// No record is filed under `hash` where none of them has that hash.
pub proof fn lemma_lookup_none(records: Seq<Record>, hash: Seq<u8>)
    requires
        forall|j: int| 0 <= j < records.len() ==> (#[trigger] records[j]).hash@ != hash,
    ensures
        lookup(records, hash) is None,
{
}

/// The first record that has `hash` is the one filed under it.
pub proof fn lemma_lookup_first(records: Seq<Record>, hash: Seq<u8>, i: int)
    requires
        first_at(records, hash, i),
    ensures
        lookup(records, hash) == Some(records[i]),
{
    let k = choose|k: int| first_at(records, hash, k);
    assert(first_at(records, hash, k));
    if k < i {
        assert(records[k].hash@ != hash);
    }
    if i < k {
        assert(records[i].hash@ != hash);
    }
}

/// A store as a value: what it holds, in the order in which it came.
pub struct StoreView {
    /// The records, oldest first.
    pub records: Seq<Record>,
    /// The entries that were resolved without the record that brought them.
    pub entries: Seq<EntryTypes>,
}

impl StoreView {
    /// The store that holds nothing.
    pub open spec fn empty() -> StoreView {
        StoreView { records: Seq::empty(), entries: Seq::empty() }
    }

    /// The record filed under `hash`.
    pub open spec fn get(self, hash: Seq<u8>) -> Option<Record> {
        lookup(self.records, hash)
    }

    /// Whether the store resolves `entry`: a record brought it, or it was
    /// resolved by itself. Entries are addressed by content, so to hold an
    /// equal entry is to hold this one.
    pub open spec fn has_entry(self, entry: EntryTypesView) -> bool {
        ||| exists|i: int|
            0 <= i < self.records.len() && (#[trigger] self.records[i]).entry.declared() == Some(
                entry,
            )
        ||| exists|j: int| 0 <= j < self.entries.len() && (#[trigger] self.entries[j])@ == entry
    }

    /// Whether this store holds all that `earlier` holds, in the same order,
    /// and maybe more after it.
    pub open spec fn extends(self, earlier: StoreView) -> bool {
        &&& earlier.records.is_prefix_of(self.records)
        &&& earlier.entries.is_prefix_of(self.entries)
    }

    /// This store with `record` after all the others.
    pub open spec fn with_record(self, record: Record) -> StoreView {
        StoreView { records: self.records.push(record), entries: self.entries }
    }

    /// This store with `entry` after all the other entries.
    pub open spec fn with_entry(self, entry: EntryTypes) -> StoreView {
        StoreView { records: self.records, entries: self.entries.push(entry) }
    }
}

/// The records and entries that the host has resolved.
#[derive(Debug)]
pub struct RecordStore {
    records: Vec<Record>,
    entries: Vec<EntryTypes>,
}

impl View for RecordStore {
    type V = StoreView;

    closed spec fn view(&self) -> StoreView {
        StoreView { records: self.records@, entries: self.entries@ }
    }
}

impl RecordStore {
    /// A store that resolves nothing.
    pub fn new() -> (store: RecordStore)
        ensures
            store@ == StoreView::empty(),
    {
        RecordStore { records: Vec::new(), entries: Vec::new() }
    }

    /// The number of records.
    pub fn len(&self) -> (n: usize)
        ensures
            n == self@.records.len(),
    {
        self.records.len()
    }

    /// Adds `record` after all the others. Nothing that was there changes.
    pub fn append(&mut self, record: Record)
        ensures
            final(self)@ == old(self)@.with_record(record),
            final(self)@.extends(old(self)@),
    {
        self.records.push(record);
    }

    /// Adds an entry that was resolved without its record.
    pub fn append_entry(&mut self, entry: EntryTypes)
        ensures
            final(self)@ == old(self)@.with_entry(entry),
            final(self)@.extends(old(self)@),
    {
        self.entries.push(entry);
    }

    /// The record filed under `hash`, if there is one.
    pub fn get(&self, hash: &Address) -> (found: Option<&Record>)
        ensures
            found matches Some(record) ==> self@.get(hash@) == Some(*record),
            found is None ==> self@.get(hash@) is None,
    {
        let mut i: usize = 0;
        while i < self.records.len()
            invariant
                i <= self.records@.len(),
                forall|j: int| 0 <= j < i ==> (#[trigger] self.records@[j]).hash@ != hash@,
            decreases self.records@.len() - i,
        {
            if self.records[i].hash == *hash {
                proof {
                    lemma_lookup_first(self.records@, hash@, i as int);
                }
                return Some(&self.records[i]);
            }
            i += 1;
        }
        proof {
            lemma_lookup_none(self.records@, hash@);
        }
        None
    }

    /// The record filed under `hash`, which the caller cannot do without.
    pub fn must_get(&self, hash: &Address) -> (found: Result<&Record, Fault>)
        ensures
            found matches Ok(record) ==> self@.get(hash@) == Some(*record),
            found matches Err(fault) ==> self@.get(hash@) is None && fault == Fault::RecordNotFound,
    {
        match self.get(hash) {
            Some(record) => Ok(record),
            None => Err(Fault::RecordNotFound),
        }
    }

    /// Whether the store resolves `entry`.
    pub fn holds_entry(&self, entry: &EntryTypes) -> (yes: bool)
        ensures
            yes == self@.has_entry(entry@),
    {
        let mut i: usize = 0;
        while i < self.records.len()
            invariant
                i <= self.records@.len(),
                forall|k: int|
                    0 <= k < i ==> (#[trigger] self.records@[k]).entry.declared() != Some(entry@),
            decreases self.records@.len() - i,
        {
            if self.records[i].entry.holds(entry) {
                return true;
            }
            i += 1;
        }
        let mut j: usize = 0;
        while j < self.entries.len()
            invariant
                j <= self.entries@.len(),
                forall|k: int|
                    0 <= k < self.records@.len() ==> (#[trigger] self.records@[k]).entry.declared()
                        != Some(entry@),
                forall|k: int| 0 <= k < j ==> (#[trigger] self.entries@[k])@ != entry@,
            decreases self.entries@.len() - j,
        {
            if self.entries[j] == *entry {
                assert(self@.entries[j as int]@ == entry@);
                return true;
            }
            j += 1;
        }
        false
    }
}

} // verus!
