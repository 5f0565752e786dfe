//! Row identifiers and the allocator that issues them.

use vstd::prelude::*;

verus! {

/// The identifier of a row. It is assigned when the row is inserted and never
/// changes afterwards.
#[derive(Clone, Copy, Debug, PartialEq, Eq, Hash, Structural)]
pub struct Id {
    pub value: u64,
}

/// Issues identifiers in increasing order, each of them once.
#[derive(Debug)]
pub struct IdAllocator {
    next: u64,
}

impl IdAllocator {
    /// How many identifiers have been issued. The identifiers issued so far are
    /// exactly those whose value is below this number.
    pub closed spec fn issued(&self) -> nat {
        self.next as nat
    }

    /// Whether `id` has been issued by this allocator.
    pub open spec fn has_issued(&self, id: Id) -> bool {
        id.value < self.issued()
    }

    /// Whether every identifier that fits the machine word has been issued.
    pub open spec fn exhausted(&self) -> bool {
        self.issued() >= u64::MAX
    }

    /// A fresh allocator, which has issued nothing.
    pub fn new() -> (allocator: Self)
        ensures
            allocator.issued() == 0,
    {
        IdAllocator { next: 0 }
    }

    /// Tells whether `next` can still be called.
    pub fn is_exhausted(&self) -> (b: bool)
        ensures
            b == self.exhausted(),
    {
        self.next == u64::MAX
    }

    /// Issues the next identifier: the smallest one not issued before, which
    /// is larger than every one issued before.
    pub fn next(&mut self) -> (id: Id)
        requires
            !old(self).exhausted(),
        ensures
            id.value == old(self).issued(),
            final(self).issued() == old(self).issued() + 1,
            !old(self).has_issued(id),
            forall|earlier: Id| old(self).has_issued(earlier) ==> earlier.value < id.value,
            forall|any: Id|
                final(self).has_issued(any) <==> old(self).has_issued(any) || any == id,
    {
        let id = Id { value: self.next };
        self.next = self.next + 1;
        id
    }
}

} // verus!
