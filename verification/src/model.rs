//! The registry as a mathematical value, and what each operation makes of it.
//!
//! The contracts of the registry's operations are stated over these
//! functions; so are the laws that relate one operation to another.

use crate::file::{FileType, FileView};
use ink::primitives::AccountId;
use vstd::prelude::*;

verus! {

/// One request that may change the registry, with everything it is given.
pub enum Call {
    AddFile {
        caller: AccountId,
        timestamp: u64,
        name: Seq<char>,
        size: u64,
        description: Seq<char>,
        file_type: FileType,
    },
    UpdateFile {
        caller: AccountId,
        file_id: u64,
        new_name: Seq<char>,
        new_size: u64,
        new_description: Seq<char>,
        new_file_type: FileType,
    },
    DeleteFile { caller: AccountId, file_id: u64 },
}

/// How many of `calls` are creations.
pub open spec fn creations(calls: Seq<Call>) -> nat
    decreases calls.len(),
{
    if calls.len() == 0 {
        0
    } else if calls.last() is AddFile {
        creations(calls.drop_last()) + 1
    } else {
        creations(calls.drop_last())
    }
}

/// The state of a registry: the records it holds, by identifier, and the next
/// identifier that was never handed out.
pub struct RegistryView {
    pub files: Map<u64, FileView>,
    pub next_file_id: u64,
}

impl RegistryView {
    /// A registry in which nothing was ever created.
    pub open spec fn empty() -> RegistryView {
        RegistryView { files: Map::empty(), next_file_id: 0 }
    }

    /// What holds of every registry that began empty: each record is stored
    /// under its own identifier, and that identifier was handed out before.
    pub open spec fn wf(self) -> bool {
        forall|id: u64| #[trigger]
            self.files.contains_key(id) ==> self.files[id].id == id && id < self.next_file_id
    }

    /// No identifier is left to hand out.
    pub open spec fn exhausted(self) -> bool {
        self.next_file_id == u64::MAX
    }

    /// The record that a creation stores: it gets the next unused identifier,
    /// and the creating caller owns it.
    pub open spec fn new_record(
        self,
        caller: AccountId,
        timestamp: u64,
        name: Seq<char>,
        size: u64,
        description: Seq<char>,
        file_type: FileType,
    ) -> FileView {
        FileView {
            id: self.next_file_id,
            name,
            file_type,
            size,
            description,
            timestamp,
            owner: caller,
        }
    }

    /// The registry after a creation: the new record is added under the next
    /// unused identifier, which is then used up.
    pub open spec fn created(
        self,
        caller: AccountId,
        timestamp: u64,
        name: Seq<char>,
        size: u64,
        description: Seq<char>,
        file_type: FileType,
    ) -> RegistryView
        recommends
            !self.exhausted(),
    {
        RegistryView {
            files: self.files.insert(
                self.next_file_id,
                self.new_record(caller, timestamp, name, size, description, file_type),
            ),
            next_file_id: (self.next_file_id + 1) as u64,
        }
    }

    /// What a lookup of `id` finds.
    pub open spec fn get(self, id: u64) -> Option<FileView> {
        if self.files.contains_key(id) {
            Some(self.files[id])
        } else {
            None
        }
    }

    /// Whether `caller` may replace or remove the record under `id`: there
    /// must be one, and `caller` must own it.
    pub open spec fn may_change(self, caller: AccountId, id: u64) -> bool {
        self.files.contains_key(id) && self.files[id].owner == caller
    }

    /// The registry after `caller` asked to replace the mutable fields of the
    /// record under `id`: done if `caller` may, else nothing changes.
    pub open spec fn updated(
        self,
        caller: AccountId,
        id: u64,
        new_name: Seq<char>,
        new_size: u64,
        new_description: Seq<char>,
        new_file_type: FileType,
    ) -> RegistryView {
        if self.may_change(caller, id) {
            RegistryView {
                files: self.files.insert(
                    id,
                    self.files[id].revised(new_name, new_size, new_description, new_file_type),
                ),
                ..self
            }
        } else {
            self
        }
    }

    /// The registry after `caller` asked to remove the record under `id`:
    /// done if `caller` may, else nothing changes.
    pub open spec fn deleted(self, caller: AccountId, id: u64) -> RegistryView {
        if self.may_change(caller, id) {
            RegistryView { files: self.files.remove(id), ..self }
        } else {
            self
        }
    }

    /// The registry after `call`.
    pub open spec fn after(self, call: Call) -> RegistryView {
        match call {
            Call::AddFile { caller, timestamp, name, size, description, file_type } => self.created(
                caller,
                timestamp,
                name,
                size,
                description,
                file_type,
            ),
            Call::UpdateFile {
                caller,
                file_id,
                new_name,
                new_size,
                new_description,
                new_file_type,
            } => self.updated(caller, file_id, new_name, new_size, new_description, new_file_type),
            Call::DeleteFile { caller, file_id } => self.deleted(caller, file_id),
        }
    }

    /// The registry after `calls`, made one after another.
    pub open spec fn after_all(self, calls: Seq<Call>) -> RegistryView
        decreases calls.len(),
    {
        if calls.len() == 0 {
            self
        } else {
            self.after_all(calls.drop_last()).after(calls.last())
        }
    }
}

} // verus!
