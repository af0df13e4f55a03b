//! Keyed storage for records.

use crate::file::{File, FileView};
use std::collections::HashMap;
use vstd::prelude::*;

verus! {

broadcast use vstd::std_specs::hash::group_hash_axioms;

/// Records by identifier. The store is purely structural: it keeps whatever
/// record it is given under whatever key, and knows nothing of owners.
pub struct RecordStore {
    records: HashMap<u64, File>,
}

impl View for RecordStore {
    type V = Map<u64, FileView>;

    /// The stored records, each as its view, by key.
    closed spec fn view(&self) -> Map<u64, FileView> {
        Map::new(|id: u64| self.records@.contains_key(id), |id: u64| self.records@[id]@)
    }
}

impl RecordStore {
    /// A store that holds nothing.
    pub fn new() -> (store: Self)
        ensures
            store@ == Map::<u64, FileView>::empty(),
    {
        RecordStore { records: HashMap::new() }
    }

    /// The record under `id`, if there is one.
    pub fn get(&self, id: u64) -> (found: Option<&File>)
        ensures
            match found {
                Some(record) => self@.contains_key(id) && self@[id] == record@,
                None => !self@.contains_key(id),
            },
    {
        self.records.get(&id)
    }

    /// Stores `record` under `id`, in place of any record that was there.
    pub fn put(&mut self, id: u64, record: File)
        ensures
            final(self)@ == old(self)@.insert(id, record@),
    {
        self.records.insert(id, record);
    }

    /// Drops the record under `id`; where there is none, nothing changes.
    pub fn remove(&mut self, id: u64)
        ensures
            final(self)@ == old(self)@.remove(id),
    {
        self.records.remove(&id);
    }
}

} // verus!
