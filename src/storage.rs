//! Permanent static storage, handed out by a one-way bump allocator.
use vstd::prelude::*;

verus! {

/// A contiguous block of static storage: `len` bytes from `start`.
#[derive(Clone, Copy, Debug, PartialEq, Eq, Structural)]
pub struct Region {
    pub start: usize,
    pub len: usize,
}

impl Region {
    /// One past the last byte of the region.
    pub open spec fn end(self) -> int {
        self.start + self.len
    }

    /// The two regions share no byte.
    pub open spec fn disjoint(self, other: Region) -> bool {
        self.end() <= other.start || other.end() <= self.start
    }

    /// The region lies inside the half-open span `[lo, hi)`.
    pub open spec fn within(self, lo: int, hi: int) -> bool {
        lo <= self.start && self.end() <= hi
    }
}

/// Static storage of a fixed capacity. Allocation only moves forward:
/// nothing is ever freed, so every region handed out stays valid (and
/// exclusively owned by whoever received it) for the life of the system.
pub struct StaticArena {
    capacity: usize,
    next: usize,
}

impl View for StaticArena {
    /// `(capacity, next)`: the total size and the first byte not yet handed out.
    type V = (nat, nat);

    closed spec fn view(&self) -> (nat, nat) {
        (self.capacity as nat, self.next as nat)
    }
}

impl StaticArena {
    pub open spec fn spec_capacity(&self) -> nat {
        self@.0
    }

    /// The first byte that has not been handed out yet.
    pub open spec fn spec_next(&self) -> nat {
        self@.1
    }

    pub open spec fn spec_remaining(&self) -> int {
        self@.0 - self@.1
    }

    pub closed spec fn wf(&self) -> bool {
        self.next <= self.capacity
    }

    /// Fresh storage of `capacity` bytes, none of it handed out.
    pub fn new(capacity: usize) -> (r: StaticArena)
        ensures
            r.wf(),
            r.spec_capacity() == capacity,
            r.spec_next() == 0,
    {
        StaticArena { capacity, next: 0 }
    }

    pub fn capacity(&self) -> (r: usize)
        ensures
            r == self.spec_capacity(),
    {
        self.capacity
    }

    /// Bytes handed out so far.
    pub fn used(&self) -> (r: usize)
        ensures
            r == self.spec_next(),
    {
        self.next
    }

    /// Bytes still available.
    pub fn remaining(&self) -> (r: usize)
        requires
            self.wf(),
        ensures
            r == self.spec_remaining(),
    {
        self.capacity - self.next
    }

    /// Reserves `len` bytes for the rest of the system's life. The region
    /// starts where the previous one ended; when fewer than `len` bytes are
    /// left, nothing is reserved and the storage is unchanged.
    pub fn reserve(&mut self, len: usize) -> (r: Option<Region>)
        requires
            old(self).wf(),
        ensures
            final(self).wf(),
            final(self).spec_capacity() == old(self).spec_capacity(),
            len <= old(self).spec_remaining() <==> r.is_some(),
            match r {
                Some(region) => {
                    &&& region.start == old(self).spec_next()
                    &&& region.len == len
                    &&& final(self).spec_next() == old(self).spec_next() + len
                },
                None => final(self)@ == old(self)@,
            },
    {
        if len <= self.capacity - self.next {
            let region = Region { start: self.next, len };
            self.next = self.next + len;
            Some(region)
        } else {
            None
        }
    }
}

} // verus!
