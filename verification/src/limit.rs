//! The budget of a bounded reader: how many bytes a source may still give.

use vstd::prelude::*;

verus! {

/// Counts down the bytes that may still be taken from a source. A reader
/// that asks the budget before each read, and tells it of each read, never
/// takes more than the budget it was made with.
pub struct LimitReader {
    left: u64,
}

impl View for LimitReader {
    type V = nat;

    /// The number of bytes that may still be taken.
    closed spec fn view(&self) -> nat {
        self.left as nat
    }
}

impl LimitReader {
    /// A budget of `length` bytes.
    pub fn new(length: u64) -> (reader: Self)
        ensures
            reader@ == length,
    {
        LimitReader { left: length }
    }

    /// The number of bytes that may still be taken.
    pub fn left(&self) -> (left: u64)
        ensures
            left == self@,
    {
        self.left
    }

    /// The size of the next read: `wanted` bytes, or all that is left where
    /// that is less. Once nothing is left the answer is zero, which the
    /// caller reports as the end of the stream.
    pub fn grant(&self, wanted: usize) -> (granted: usize)
        ensures
            granted == if wanted <= self@ { wanted as nat } else { self@ },
    {
        if wanted as u64 <= self.left {
            wanted
        } else {
            self.left as usize
        }
    }

    /// Takes `count` bytes, which a read has given, off the budget.
    pub fn consume(&mut self, count: usize)
        requires
            count <= old(self)@,
        ensures
            final(self)@ == old(self)@ - count,
    {
        self.left = self.left - count as u64;
    }
}

} // verus!
