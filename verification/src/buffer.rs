//! The immutable, shared byte buffer that arrays view. Cloning and slicing
//! share the underlying storage; nothing copies. A buffer remembers where in
//! its allocation it starts, which is what the alignment checks at array
//! construction look at: allocations begin aligned for every fixed-width
//! element type, so a view is misaligned exactly when its start position is.

use vstd::prelude::*;

use crate::arc_clone;
use crate::bits::nth_bit;

verus! {

use std::sync::Arc;

#[derive(Debug, PartialEq)]
pub struct Buffer {
    storage: Arc<Vec<u8>>,
    start: usize,
    length: usize,
}

impl View for Buffer {
    type V = Seq<u8>;

    closed spec fn view(&self) -> Seq<u8> {
        self.storage@.subrange(self.start as int, self.start + self.length)
    }
}

impl Buffer {
    #[verifier::type_invariant]
    spec fn wf(self) -> bool {
        self.start + self.length <= self.storage@.len() && self.storage@.len() <= usize::MAX
    }

    /// The buffer's first byte's position within its allocation. Zero for a
    /// freshly built buffer; slicing moves it.
    pub closed spec fn start_pos(&self) -> nat {
        self.start as nat
    }

    /// Wraps a byte vector as a buffer, starting at the head of its allocation.
    pub fn from_vec(data: Vec<u8>) -> (b: Buffer)
        ensures
            b@ == data@,
            b.start_pos() == 0,
    {
        let n = data.len();
        let b = Buffer { storage: Arc::new(data), start: 0, length: n };
        proof {
            assert(b@ =~= data@);
        }
        b
    }

    /// The byte length of this view.
    pub fn len(&self) -> (n: usize)
        ensures
            n == self@.len(),
    {
        proof {
            use_type_invariant(self);
        }
        self.length
    }

    /// The byte at position `i` of this view.
    pub fn byte(&self, i: usize) -> (b: u8)
        requires
            i < self@.len(),
        ensures
            b == self@[i as int],
    {
        proof {
            use_type_invariant(self);
            assert(self@.len() == self.length);
        }
        let v: &Vec<u8> = &self.storage;
        v[self.start + i]
    }

    /// Bit `i` of this view, least-significant bit first within each byte.
    pub fn bit(&self, i: usize) -> (b: bool)
        requires
            i as int / 8 < self@.len(),
        ensures
            b == nth_bit(self@, i as int),
    {
        let by = self.byte(i / 8);
        let sh: u8 = (i % 8) as u8;
        (by >> sh) & 1 == 1
    }

    /// A view of this buffer starting `offset` bytes in, sharing storage.
    pub fn slice(&self, offset: usize) -> (b: Buffer)
        requires
            offset <= self@.len(),
        ensures
            b@ == self@.subrange(offset as int, self@.len() as int),
            b.start_pos() == self.start_pos() + offset,
    {
        proof {
            use_type_invariant(self);
            assert(self@.len() == self.length);
        }
        let b = Buffer {
            storage: arc_clone(&self.storage),
            start: self.start + offset,
            length: self.length - offset,
        };
        proof {
            assert(b@ =~= self@.subrange(offset as int, self@.len() as int));
        }
        b
    }

    /// Whether the buffer's start position is a multiple of `align`.
    pub fn is_aligned(&self, align: usize) -> (r: bool)
        requires
            align > 0,
        ensures
            r == (self.start_pos() % align as nat == 0),
    {
        self.start % align == 0
    }
}

impl Clone for Buffer {
    /// An O(1) clone: the new buffer shares this buffer's storage.
    fn clone(&self) -> (r: Self)
        ensures
            r == *self,
    {
        proof {
            use_type_invariant(self);
        }
        Buffer { storage: arc_clone(&self.storage), start: self.start, length: self.length }
    }
}

} // verus!
