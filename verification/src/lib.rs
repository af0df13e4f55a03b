//! A registry of file metadata. Each record carries an identifier, a name, a
//! kind, a size, a description, the time of its creation and the account that
//! created it. Anyone may read a record; only its owner may update or delete
//! it. Identifiers count up from 0 and are never used twice.
//!
//! - [`file`]: the record and its kind.
//! - [`account`]: the identity of a caller, an `ink::primitives::AccountId`.
//! - [`allocator`]: the source of identifiers.
//! - [`store`]: records by identifier.
//! - [`guard`]: who may change a record.
//! - [`registry`]: the four operations, on a store and an allocator of its own.
//! - [`model`]: the registry as a mathematical value; the contracts of the
//!   operations are stated over it.
//! - [`laws`]: what is proved of the model: the invariants of every reachable
//!   state, and how the operations relate.
//!
//! No function here panics. The one request that cannot be served, a
//! creation when every identifier is used up, is ruled out by the
//! precondition of the functions that would serve it; `is_exhausted` tells
//! a caller beforehand.

pub mod account;
pub mod allocator;
pub mod file;
pub mod guard;
pub mod laws;
pub mod model;
pub mod registry;
pub mod store;
