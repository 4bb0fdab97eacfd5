//! The position of a chunk in its stream, kept for diagnostics only.

use vstd::prelude::*;

verus! {

/// Counts the chunks of one stream as they pass. The count takes no part in
/// what an ingest decides.
#[derive(Debug)]
pub struct ChunkCounter {
    next: u64,
}

impl ChunkCounter {
    /// The number of chunks marked so far, up to the largest number the
    /// counter can hold.
    pub closed spec fn position(&self) -> nat {
        self.next as nat
    }

    /// A counter that has marked no chunk.
    pub fn new() -> (counter: ChunkCounter)
        ensures
            counter.position() == 0,
    {
        ChunkCounter { next: 0 }
    }

    /// Marks one more chunk and gives its position in the stream, counted
    /// from 0. The positions never go down; they stop going up at the largest
    /// number the counter can hold.
    pub fn mark(&mut self) -> (position: u64)
        ensures
            position == old(self).position(),
            final(self).position() == if old(self).position() < u64::MAX {
                old(self).position() + 1
            } else {
                old(self).position()
            },
    {
        let position: u64 = self.next;
        if self.next < u64::MAX {
            self.next = self.next + 1;
        }
        position
    }
}

} // verus!
