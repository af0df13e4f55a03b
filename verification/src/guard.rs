//! Who may change a record, and what a request to change one comes to.
//!
//! These functions decide; they touch no storage. The registry applies their
//! answers to its store, and so can anything that keeps records elsewhere.

use crate::account::same_account;
use crate::file::{File, FileType};
use ink::primitives::AccountId;
use vstd::prelude::*;

verus! {

/// Whether `caller` may replace or remove `record`: only the account that
/// created a record owns it, and only the owner may.
pub fn authorize(record: &File, caller: &AccountId) -> (allowed: bool)
    ensures
        allowed == (record@.owner == *caller),
{
    same_account(&record.owner, caller)
}

/// What an update by `caller` makes of the record `found` under the
/// identifier it names: the revised record to store in its place, if there is
/// a record and `caller` owns it; nothing to store otherwise.
pub fn revise_if_owner(
    found: Option<&File>,
    caller: &AccountId,
    new_name: String,
    new_size: u64,
    new_description: String,
    new_file_type: FileType,
) -> (revised: Option<File>)
    ensures
        revised.is_some() == (found.is_some() && found.unwrap()@.owner == *caller),
        revised.is_some() ==> revised.unwrap()@ == found.unwrap()@.revised(
            new_name@,
            new_size,
            new_description@,
            new_file_type,
        ),
{
    match found {
        Some(record) => {
            if authorize(record, caller) {
                Some(record.revised(new_name, new_size, new_description, new_file_type))
            } else {
                None
            }
        },
        None => None,
    }
}

/// Whether a deletion by `caller` goes ahead, given the record `found` under
/// the identifier it names: there must be one, and `caller` must own it.
pub fn remove_if_owner(found: Option<&File>, caller: &AccountId) -> (allowed: bool)
    ensures
        allowed == (found.is_some() && found.unwrap()@.owner == *caller),
{
    match found {
        Some(record) => authorize(record, caller),
        None => false,
    }
}

} // verus!
