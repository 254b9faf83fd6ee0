//! Identifiers that are unique among those drawn from one source.
use vstd::prelude::*;

verus! {

#[derive(PartialEq, Eq, PartialOrd, Ord, Debug)]
pub struct RuntimeId {
    value: usize,
}

/// Hands out identifiers in increasing order.
pub struct RuntimeIdSource {
    next: usize,
}

impl RuntimeIdSource {
    /// The value of the next identifier.
    pub closed spec fn next(&self) -> usize {
        self.next
    }

    /// A source whose first identifier is zero.
    pub fn new() -> (r: Self)
        ensures
            r.next() == 0,
    {
        RuntimeIdSource { next: 0 }
    }
}

impl RuntimeId {
    pub closed spec fn spec_value(&self) -> usize {
        self.value
    }

    /// A fresh identifier: it differs from every identifier that `source`
    /// handed out before, all of which are smaller.
    pub fn generate(source: &mut RuntimeIdSource) -> (r: Self)
        requires
            old(source).next() < usize::MAX,
        ensures
            r.spec_value() == old(source).next(),
            final(source).next() == old(source).next() + 1,
    {
        let value = source.next;
        source.next = source.next + 1;
        RuntimeId { value }
    }

    /// The identifier's value.
    pub fn value(&self) -> (r: usize)
        ensures
            r == self.spec_value(),
    {
        self.value
    }
}

} // verus!
