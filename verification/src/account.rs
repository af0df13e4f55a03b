//! The identity of a caller.
//!
//! The registry never looks inside an account: it stores the owner of a
//! record and asks whether a caller is that same account.

use ink::primitives::AccountId;
use vstd::prelude::*;

verus! {

/// `ink::primitives::AccountId`, a 32-byte account address, carried through
/// the registry as an opaque value.
#[verifier::external_type_specification]
#[verifier::external_body]
pub struct ExAccountId(AccountId);

/// Calls `AccountId`'s `PartialEq::eq`, which ink derives over the 32 address
/// bytes. Trusted: the result is `true` exactly when both are the same
/// account.
#[verifier::external_body]
pub(crate) fn same_account(a: &AccountId, b: &AccountId) -> (same: bool)
    ensures
        same == (*a == *b),
{
    a.eq(b)
}

} // verus!
