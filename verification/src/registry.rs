//! The registry: create, read, update and delete, with updates and deletions
//! reserved to the owner of a record.

use crate::allocator::IdentifierAllocator;
use crate::file::{File, FileType};
use crate::guard::{remove_if_owner, revise_if_owner};
use crate::model::RegistryView;
use crate::store::RecordStore;
use ink::primitives::AccountId;
use vstd::prelude::*;

verus! {

/// A registry of file records. Every operation that acts for someone takes
/// that caller's account, and a creation takes the current time: the registry
/// consults no clock and resolves no identity itself.
pub struct FileManagerContract {
    files: RecordStore,
    ids: IdentifierAllocator,
}

impl View for FileManagerContract {
    type V = RegistryView;

    closed spec fn view(&self) -> RegistryView {
        RegistryView { files: self.files@, next_file_id: self.ids@ }
    }
}

impl Default for FileManagerContract {
    /// The same as `new`.
    fn default() -> (contract: Self)
        ensures
            contract@ == RegistryView::empty(),
            contract@.wf(),
    {
        FileManagerContract::new()
    }
}

impl FileManagerContract {
    /// An empty registry, whose first record will get identifier 0.
    pub fn new() -> (contract: Self)
        ensures
            contract@ == RegistryView::empty(),
            contract@.wf(),
    {
        FileManagerContract { files: RecordStore::new(), ids: IdentifierAllocator::new() }
    }

    /// The identifier that the next creation will return.
    pub fn next_file_id(&self) -> (next: u64)
        ensures
            next == self@.next_file_id,
    {
        self.ids.peek()
    }

    /// Whether every identifier has been handed out, so that nothing more can
    /// be created.
    pub fn is_exhausted(&self) -> (exhausted: bool)
        ensures
            exhausted == self@.exhausted(),
    {
        self.ids.is_exhausted()
    }

    /// Creates a record owned by `caller` and stamped with `timestamp`, and
    /// returns its identifier: the next one that was never used. A registry
    /// that has run out of identifiers cannot create; see `is_exhausted`.
    pub fn add_file(
        &mut self,
        caller: AccountId,
        timestamp: u64,
        name: String,
        size: u64,
        description: String,
        file_type: FileType,
    ) -> (file_id: u64)
        requires
            !old(self)@.exhausted(),
        ensures
            file_id == old(self)@.next_file_id,
            final(self)@ == old(self)@.created(
                caller,
                timestamp,
                name@,
                size,
                description@,
                file_type,
            ),
            old(self)@.wf() ==> final(self)@.wf(),
    {
        let file_id: u64 = self.ids.next_id();
        let file = File {
            id: file_id,
            name,
            file_type,
            size,
            description,
            timestamp,
            owner: caller,
        };
        self.files.put(file_id, file);
        file_id
    }

    /// A copy of the record under `file_id`, if there is one. Anyone may read.
    pub fn get_file(&self, file_id: u64) -> (found: Option<File>)
        ensures
            match found {
                Some(file) => self@.get(file_id) == Some(file@),
                None => self@.get(file_id).is_none(),
            },
    {
        match self.files.get(file_id) {
            Some(file) => Some(file.clone()),
            None => None,
        }
    }

    /// Replaces name, size, description and kind of the record under
    /// `file_id`, if there is one and `caller` owns it, and says whether it
    /// did. Otherwise nothing changes.
    pub fn update_file(
        &mut self,
        caller: AccountId,
        file_id: u64,
        new_name: String,
        new_size: u64,
        new_description: String,
        new_file_type: FileType,
    ) -> (changed: bool)
        ensures
            changed == old(self)@.may_change(caller, file_id),
            final(self)@ == old(self)@.updated(
                caller,
                file_id,
                new_name@,
                new_size,
                new_description@,
                new_file_type,
            ),
            old(self)@.wf() ==> final(self)@.wf(),
    {
        match revise_if_owner(
            self.files.get(file_id),
            &caller,
            new_name,
            new_size,
            new_description,
            new_file_type,
        ) {
            Some(revised) => {
                self.files.put(file_id, revised);
                true
            },
            None => false,
        }
    }

    /// Removes the record under `file_id`, if there is one and `caller` owns
    /// it, and says whether it did. Otherwise nothing changes.
    pub fn delete_file(&mut self, caller: AccountId, file_id: u64) -> (removed: bool)
        ensures
            removed == old(self)@.may_change(caller, file_id),
            final(self)@ == old(self)@.deleted(caller, file_id),
            old(self)@.wf() ==> final(self)@.wf(),
    {
        let allowed: bool = remove_if_owner(self.files.get(file_id), &caller);
        if allowed {
            self.files.remove(file_id);
        }
        allowed
    }
}

} // verus!
