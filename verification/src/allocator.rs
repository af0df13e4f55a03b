//! Identifiers for new records.

use vstd::prelude::*;

verus! {

/// Hands out identifiers in increasing order, each one once. Its state is the
/// next identifier that was never handed out.
pub struct IdentifierAllocator {
    next: u64,
}

impl View for IdentifierAllocator {
    type V = u64;

    /// The next unused identifier.
    closed spec fn view(&self) -> u64 {
        self.next
    }
}

impl IdentifierAllocator {
    /// An allocator that has handed out nothing: its first identifier is 0.
    pub fn new() -> (ids: Self)
        ensures
            ids@ == 0,
    {
        IdentifierAllocator { next: 0 }
    }

    /// An allocator that goes on from a counter kept elsewhere: `next` is the
    /// first identifier it hands out.
    pub fn starting_at(next: u64) -> (ids: Self)
        ensures
            ids@ == next,
    {
        IdentifierAllocator { next }
    }

    /// The next unused identifier, without taking it.
    pub fn peek(&self) -> (next: u64)
        ensures
            next == self@,
    {
        self.next
    }

    /// Whether the identifier space is used up: advancing past the last
    /// 64-bit value would wrap round to identifiers already handed out.
    pub fn is_exhausted(&self) -> (exhausted: bool)
        ensures
            exhausted == (self@ == u64::MAX),
    {
        self.next == u64::MAX
    }

    /// Takes the next unused identifier and advances by one. An exhausted
    /// allocator has nothing left to give, so callers must rule that out.
    pub fn next_id(&mut self) -> (id: u64)
        requires
            old(self)@ < u64::MAX,
        ensures
            id == old(self)@,
            final(self)@ == old(self)@ + 1,
    {
        let id: u64 = self.next;
        self.next = id + 1;
        id
    }
}

} // verus!
