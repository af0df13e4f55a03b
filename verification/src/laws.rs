//! Laws of the registry: what holds of every state it can reach, and of its
//! operations taken together.

use crate::file::FileType;
use crate::model::{creations, Call, RegistryView};
use ink::primitives::AccountId;
use vstd::prelude::*;

verus! {

/// A registry in which nothing was created is well formed.
pub proof fn lemma_empty_is_wf()
    ensures
        RegistryView::empty().wf(),
{
}

/// No call breaks well-formedness: a creation that still has an identifier
/// to give, an update and a deletion each lead from a well-formed registry to
/// a well-formed one, whoever the caller is.
pub proof fn lemma_call_keeps_wf(s: RegistryView, call: Call)
    requires
        s.wf(),
        call is AddFile ==> !s.exhausted(),
    ensures
        s.after(call).wf(),
{
}

/// Updates and deletions hand out no identifier, and a creation that still
/// has one to give uses up exactly one: the next unused identifier never goes
/// back.
pub proof fn lemma_call_advances_next_id(s: RegistryView, call: Call)
    requires
        call is AddFile ==> !s.exhausted(),
    ensures
        call is AddFile ==> s.after(call).next_file_id == s.next_file_id + 1,
        !(call is AddFile) ==> s.after(call).next_file_id == s.next_file_id,
{
}

/// After any calls, as long as identifiers are left, the next unused
/// identifier has advanced by the number of creations among them.
pub proof fn lemma_calls_advance_next_id(s: RegistryView, calls: Seq<Call>)
    requires
        s.next_file_id + creations(calls) <= u64::MAX,
    ensures
        s.after_all(calls).next_file_id == s.next_file_id + creations(calls),
    decreases calls.len(),
{
    if calls.len() > 0 {
        lemma_calls_advance_next_id(s, calls.drop_last());
    }
}

/// Every registry that calls can reach from a well-formed one, and so from an
/// empty one, is well formed, as long as identifiers are left.
pub proof fn lemma_calls_keep_wf(s: RegistryView, calls: Seq<Call>)
    requires
        s.wf(),
        s.next_file_id + creations(calls) <= u64::MAX,
    ensures
        s.after_all(calls).wf(),
    decreases calls.len(),
{
    if calls.len() > 0 {
        lemma_calls_keep_wf(s, calls.drop_last());
        lemma_calls_advance_next_id(s, calls.drop_last());
    }
}

/// Where every call is a creation, there are as many creations as calls.
proof fn lemma_count_of_creations_only(calls: Seq<Call>)
    requires
        forall|j: int| 0 <= j < calls.len() ==> calls[j] is AddFile,
    ensures
        creations(calls) == calls.len(),
    decreases calls.len(),
{
    if calls.len() > 0 {
        lemma_count_of_creations_only(calls.drop_last());
    }
}

/// The creation at position `i` of `calls` returns the identifier with which
/// the registry began, plus the number of creations before it, whatever
/// updates and deletions came between: identifiers are handed out in call
/// order, without gaps or repeats, and none is used again after a deletion.
/// So creations made one after another in a registry that began empty return
/// 0, 1, 2 and so on.
pub proof fn lemma_created_ids_are_consecutive(s: RegistryView, calls: Seq<Call>, i: int)
    requires
        0 <= i < calls.len(),
        calls[i] is AddFile,
        s.next_file_id + creations(calls.take(i)) < u64::MAX,
    ensures
        s.after_all(calls.take(i)).next_file_id == s.next_file_id + creations(calls.take(i)),
        (forall|j: int| 0 <= j < i ==> calls[j] is AddFile) ==> s.after_all(
            calls.take(i),
        ).next_file_id == s.next_file_id + i,
        (forall|j: int| 0 <= j < i ==> calls[j] is AddFile) && s == RegistryView::empty()
            ==> s.after_all(calls.take(i)).next_file_id == i,
{
    lemma_calls_advance_next_id(s, calls.take(i));
    if forall|j: int| 0 <= j < i ==> calls[j] is AddFile {
        lemma_count_of_creations_only(calls.take(i));
    }
}

/// A record that is gone stays gone: once an identifier has been handed out
/// and holds no record, no calls bring a record back under it.
pub proof fn lemma_gone_stays_gone(s: RegistryView, id: u64, calls: Seq<Call>)
    requires
        id < s.next_file_id,
        !s.files.contains_key(id),
        s.next_file_id + creations(calls) <= u64::MAX,
    ensures
        !s.after_all(calls).files.contains_key(id),
    decreases calls.len(),
{
    if calls.len() > 0 {
        lemma_gone_stays_gone(s, id, calls.drop_last());
        lemma_calls_advance_next_id(s, calls.drop_last());
    }
}

/// Identifier, owner and time of creation never change: a record that calls
/// have left in a well-formed registry has them as it had them before.
pub proof fn lemma_id_owner_and_time_are_fixed(s: RegistryView, id: u64, calls: Seq<Call>)
    requires
        s.wf(),
        s.files.contains_key(id),
        s.next_file_id + creations(calls) <= u64::MAX,
        s.after_all(calls).files.contains_key(id),
    ensures
        s.after_all(calls).files[id].id == s.files[id].id,
        s.after_all(calls).files[id].owner == s.files[id].owner,
        s.after_all(calls).files[id].timestamp == s.files[id].timestamp,
    decreases calls.len(),
{
    if calls.len() > 0 {
        lemma_calls_advance_next_id(s, calls.drop_last());
        lemma_calls_keep_wf(s, calls.drop_last());
        if s.after_all(calls.drop_last()).files.contains_key(id) {
            lemma_id_owner_and_time_are_fixed(s, id, calls.drop_last());
        }
    }
}

/// In a well-formed registry a creation overwrites nothing: no record is
/// stored under the identifier it returns, which is greater than that of
/// every record, and every record that was there stays as it was.
pub proof fn lemma_creation_overwrites_nothing(
    s: RegistryView,
    caller: AccountId,
    timestamp: u64,
    name: Seq<char>,
    size: u64,
    description: Seq<char>,
    file_type: FileType,
)
    requires
        s.wf(),
    ensures
        !s.files.contains_key(s.next_file_id),
        forall|id: u64| #[trigger]
            s.files.contains_key(id) ==> id < s.next_file_id && s.created(
                caller,
                timestamp,
                name,
                size,
                description,
                file_type,
            ).get(id) == s.get(id),
{
}

/// Reading the identifier that a creation returned finds a record with the
/// fields that were supplied, owned by the creating caller and stamped with
/// the time of the creation.
pub proof fn lemma_read_after_create(
    s: RegistryView,
    caller: AccountId,
    timestamp: u64,
    name: Seq<char>,
    size: u64,
    description: Seq<char>,
    file_type: FileType,
)
    ensures
        ({
            let found = s.created(caller, timestamp, name, size, description, file_type).get(
                s.next_file_id,
            );
            &&& found.is_some()
            &&& found.unwrap().id == s.next_file_id
            &&& found.unwrap().name == name
            &&& found.unwrap().file_type == file_type
            &&& found.unwrap().size == size
            &&& found.unwrap().description == description
            &&& found.unwrap().timestamp == timestamp
            &&& found.unwrap().owner == caller
        }),
{
}

/// An update by the owner succeeds and replaces exactly name, kind, size and
/// description of that one record: its identifier, owner and time of creation
/// stay, and so does every other record.
pub proof fn lemma_owner_update(
    s: RegistryView,
    caller: AccountId,
    id: u64,
    new_name: Seq<char>,
    new_size: u64,
    new_description: Seq<char>,
    new_file_type: FileType,
)
    requires
        s.files.contains_key(id),
        s.files[id].owner == caller,
    ensures
        s.may_change(caller, id),
        ({
            let after = s.updated(caller, id, new_name, new_size, new_description, new_file_type);
            let found = after.get(id);
            &&& found.is_some()
            &&& found.unwrap().name == new_name
            &&& found.unwrap().file_type == new_file_type
            &&& found.unwrap().size == new_size
            &&& found.unwrap().description == new_description
            &&& found.unwrap().id == s.files[id].id
            &&& found.unwrap().owner == s.files[id].owner
            &&& found.unwrap().timestamp == s.files[id].timestamp
            &&& forall|other: u64| other != id ==> #[trigger] after.get(other) == s.get(other)
            &&& after.next_file_id == s.next_file_id
        }),
{
}

/// An update or a deletion by anyone but the owner is refused and leaves the
/// whole registry, and so the record, as it was.
pub proof fn lemma_stranger_changes_nothing(
    s: RegistryView,
    caller: AccountId,
    id: u64,
    new_name: Seq<char>,
    new_size: u64,
    new_description: Seq<char>,
    new_file_type: FileType,
)
    requires
        s.files.contains_key(id),
        s.files[id].owner != caller,
    ensures
        !s.may_change(caller, id),
        s.updated(caller, id, new_name, new_size, new_description, new_file_type) == s,
        s.deleted(caller, id) == s,
{
}

/// A deletion by the owner succeeds and removes the record and nothing else.
/// Right after it a read of that identifier finds nothing, and an update or a
/// deletion of it, by `anyone`, is refused and changes nothing.
pub proof fn lemma_delete_then_gone(
    s: RegistryView,
    caller: AccountId,
    id: u64,
    anyone: AccountId,
    new_name: Seq<char>,
    new_size: u64,
    new_description: Seq<char>,
    new_file_type: FileType,
)
    requires
        s.files.contains_key(id),
        s.files[id].owner == caller,
    ensures
        s.may_change(caller, id),
        ({
            let after = s.deleted(caller, id);
            &&& after.get(id).is_none()
            &&& !after.may_change(anyone, id)
            &&& after.updated(anyone, id, new_name, new_size, new_description, new_file_type)
                == after
            &&& after.deleted(anyone, id) == after
            &&& forall|other: u64| other != id ==> #[trigger] after.get(other) == s.get(other)
            &&& after.next_file_id == s.next_file_id
        }),
{
}

/// In a well-formed registry an identifier that was never handed out holds no
/// record: a read of it finds nothing, and an update or a deletion of it, by
/// `anyone`, is refused and changes nothing.
pub proof fn lemma_never_created_id(
    s: RegistryView,
    id: u64,
    anyone: AccountId,
    new_name: Seq<char>,
    new_size: u64,
    new_description: Seq<char>,
    new_file_type: FileType,
)
    requires
        s.wf(),
        id >= s.next_file_id,
    ensures
        s.get(id).is_none(),
        !s.may_change(anyone, id),
        s.updated(anyone, id, new_name, new_size, new_description, new_file_type) == s,
        s.deleted(anyone, id) == s,
{
}

} // verus!
