//! Sequential allocation of miner indices.

use vstd::prelude::*;

use crate::error::Error;

verus! {

/// What a successful allocation from counter value `c` yields: the next
/// index, or nothing when the counter is exhausted.
pub open spec fn allocate_spec(c: u32) -> Option<u32> {
    if c < u32::MAX {
        Some((c + 1) as u32)
    } else {
        None
    }
}

/// The next-free miner index counter.
///
/// The counter holds the last allocated index; it starts at zero, so the
/// first allocation returns index 1.  Allocation is deterministic and
/// strictly monotonic, and fails rather than wrap when the counter is
/// exhausted.
pub struct MinerIndexAllocator {
    counter: u32,
}

impl View for MinerIndexAllocator {
    type V = u32;

    closed spec fn view(&self) -> u32 {
        self.counter
    }
}

impl MinerIndexAllocator {
    /// A fresh allocator: no index has been handed out yet.
    pub fn new() -> (r: MinerIndexAllocator)
        ensures
            r@ == 0,
    {
        MinerIndexAllocator { counter: 0 }
    }

    /// An allocator resuming from a persisted counter value.
    pub fn with_counter(counter: u32) -> (r: MinerIndexAllocator)
        ensures
            r@ == counter,
    {
        MinerIndexAllocator { counter }
    }

    /// The last allocated index, or zero if none was allocated yet.
    pub fn current(&self) -> (r: u32)
        ensures
            r == self@,
    {
        self.counter
    }

    /// Allocates the next sequential index, failing with `Overflow` and
    /// leaving the counter unchanged when the range is exhausted.
    pub fn allocate(&mut self) -> (r: Result<u32, Error>)
        ensures
            match r {
                Ok(i) => allocate_spec(old(self)@) == Some(i) && final(self)@ == i,
                Err(e) => allocate_spec(old(self)@) == None::<u32> && e == Error::Overflow
                    && final(self)@ == old(self)@,
            },
    {
        if self.counter == u32::MAX {
            return Err(Error::Overflow);
        }
        self.counter = self.counter + 1;
        Ok(self.counter)
    }
}

/// Monotonicity: two successive successful allocations hand out strictly
/// increasing — in particular distinct — indices, each one greater than
/// the counter value it was allocated from.
pub proof fn lemma_allocation_monotonic(c: u32, i: u32, j: u32)
    requires
        allocate_spec(c) == Some(i),
        allocate_spec(i) == Some(j),
    ensures
        c < i && i < j,
{
}

} // verus!
