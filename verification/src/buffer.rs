//! A byte buffer of fixed capacity that is filled at the back and emptied
//! from the front, the bytes that stay sliding down to the start.

use vstd::prelude::*;
use vstd::slice::slice_subrange;

verus! {

/// A fixed-capacity buffer whose contents always start at index 0.
pub struct SlideBuffer {
    /// The storage; its length is the capacity.
    bytes: Vec<u8>,
    /// How many bytes at the start of `bytes` are contents.
    filled: usize,
}

impl View for SlideBuffer {
    type V = Seq<u8>;

    /// The contents, oldest byte first.
    closed spec fn view(&self) -> Seq<u8> {
        self.bytes@.subrange(0, self.filled as int)
    }
}

impl SlideBuffer {
    #[verifier::type_invariant]
    spec fn well_formed(&self) -> bool {
        self.filled <= self.bytes.len()
    }

    /// The number of bytes that the buffer can hold.
    pub closed spec fn capacity(&self) -> nat {
        self.bytes@.len()
    }

    /// An empty buffer that can hold `capacity` bytes.
    pub fn new(capacity: usize) -> (buffer: Self)
        ensures
            buffer@ == Seq::<u8>::empty(),
            buffer.capacity() == capacity,
    {
        SlideBuffer { bytes: vec![0u8; capacity], filled: 0 }
    }

    /// The number of bytes held.
    pub fn len(&self) -> (n: usize)
        ensures
            n == self@.len(),
    {
        proof {
            use_type_invariant(self);
        }
        self.filled
    }

    /// The number of bytes that can still be appended.
    pub fn room(&self) -> (n: usize)
        ensures
            n == self.capacity() - self@.len(),
    {
        proof {
            use_type_invariant(self);
        }
        self.bytes.len() - self.filled
    }

    /// The contents as a slice.
    pub fn as_slice(&self) -> (contents: &[u8])
        ensures
            contents@ == self@,
    {
        proof {
            use_type_invariant(self);
        }
        slice_subrange(self.bytes.as_slice(), 0, self.filled)
    }

    /// Appends `data` behind the contents.
    pub fn append(&mut self, data: &[u8])
        requires
            data@.len() <= old(self).capacity() - old(self)@.len(),
        ensures
            final(self)@ == old(self)@ + data@,
            final(self).capacity() == old(self).capacity(),
    {
        proof {
            use_type_invariant(&*self);
        }
        let start = self.filled;
        let count = data.len();
        let mut i: usize = 0;
        while i < count
            invariant
                i <= count,
                count == data@.len(),
                start == self.filled,
                start + count <= self.bytes.len(),
                self.bytes.len() == old(self).bytes.len(),
                self.bytes@.subrange(0, start as int) == old(self)@,
                self.bytes@.subrange(start as int, start + i) == data@.subrange(0, i as int),
            decreases count - i,
        {
            self.bytes[start + i] = data[i];
            i = i + 1;
            assert(self.bytes@.subrange(0, start as int) =~= old(self)@);
            assert(self.bytes@.subrange(start as int, start + i) =~= data@.subrange(0, i as int));
        }
        self.filled = start + count;
        assert forall|j: int| 0 <= j < start + count implies self.bytes@[j] == (old(self)@
            + data@)[j] by {
            if j < start {
                assert(self.bytes@.subrange(0, start as int)[j] == old(self)@[j]);
            } else {
                assert(self.bytes@.subrange(start as int, start + count)[j - start]
                    == data@.subrange(0, count as int)[j - start]);
            }
        }
        assert(self@ =~= old(self)@ + data@);
    }

    /// Drops the first `count` bytes; the rest moves to the start, in order.
    pub fn discard(&mut self, count: usize)
        requires
            count <= old(self)@.len(),
        ensures
            final(self)@ == old(self)@.skip(count as int),
            final(self).capacity() == old(self).capacity(),
    {
        proof {
            use_type_invariant(&*self);
        }
        let kept = self.filled - count;
        let mut i: usize = 0;
        while i < kept
            invariant
                i <= kept,
                kept + count == self.filled,
                self.filled == old(self).filled,
                self.filled <= self.bytes.len(),
                self.bytes.len() == old(self).bytes.len(),
                forall|j: int| 0 <= j < i ==> self.bytes@[j] == old(self).bytes@[j + count],
                forall|j: int| i <= j < self.bytes.len() ==> self.bytes@[j] == old(self).bytes@[j],
            decreases kept - i,
        {
            let byte = self.bytes[i + count];
            self.bytes[i] = byte;
            i = i + 1;
        }
        self.filled = kept;
        assert(self@ =~= old(self)@.skip(count as int));
    }
}

} // verus!
