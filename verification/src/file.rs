//! The record kept for each file, and its classification.

use ink::primitives::AccountId;
use vstd::prelude::*;

verus! {

/// What kind of document or media a file is. `Unknown` stands for every kind
/// that has no variant of its own.
#[derive(Debug, Clone, Copy, PartialEq, Eq)]
pub enum FileType {
    Pdf,
    Docx,
    Xls,
    Txt,
    Csv,
    Pptx,
    Jpg,
    Png,
    Unknown,
}

impl Default for FileType {
    /// A file whose kind was never stated is `Unknown`.
    fn default() -> (kind: Self)
        ensures
            kind == FileType::Unknown,
    {
        FileType::Unknown
    }
}

/// The metadata of one file. The registry fixes `id`, `timestamp` and
/// `owner` when the record is created; the owner may replace the other four.
#[derive(Debug, PartialEq)]
pub struct File {
    pub id: u64,
    pub name: String,
    pub file_type: FileType,
    pub size: u64,
    pub description: String,
    pub timestamp: u64,
    pub owner: AccountId,
}

/// A record as a mathematical value: both texts are sequences of characters.
pub struct FileView {
    pub id: u64,
    pub name: Seq<char>,
    pub file_type: FileType,
    pub size: u64,
    pub description: Seq<char>,
    pub timestamp: u64,
    pub owner: AccountId,
}

impl FileView {
    /// This record after its owner has replaced the four mutable fields:
    /// `id`, `timestamp` and `owner` stay as they are.
    pub open spec fn revised(
        self,
        new_name: Seq<char>,
        new_size: u64,
        new_description: Seq<char>,
        new_file_type: FileType,
    ) -> FileView {
        FileView {
            name: new_name,
            file_type: new_file_type,
            size: new_size,
            description: new_description,
            ..self
        }
    }
}

impl View for File {
    type V = FileView;

    open spec fn view(&self) -> FileView {
        FileView {
            id: self.id,
            name: self.name@,
            file_type: self.file_type,
            size: self.size,
            description: self.description@,
            timestamp: self.timestamp,
            owner: self.owner,
        }
    }
}

impl Clone for File {
    fn clone(&self) -> (copy: Self)
        ensures
            copy@ == self@,
    {
        File {
            id: self.id,
            name: self.name.clone(),
            file_type: self.file_type,
            size: self.size,
            description: self.description.clone(),
            timestamp: self.timestamp,
            owner: self.owner,
        }
    }
}

impl File {
    /// The record as `revised` describes it: a copy of this one that carries
    /// the four new values.
    pub fn revised(
        &self,
        new_name: String,
        new_size: u64,
        new_description: String,
        new_file_type: FileType,
    ) -> (record: File)
        ensures
            record@ == self@.revised(new_name@, new_size, new_description@, new_file_type),
    {
        File {
            id: self.id,
            name: new_name,
            file_type: new_file_type,
            size: new_size,
            description: new_description,
            timestamp: self.timestamp,
            owner: self.owner,
        }
    }
}

} // verus!
