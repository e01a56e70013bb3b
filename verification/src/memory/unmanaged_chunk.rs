//! Memory that the host allocated and lends to the emulator, borrowed for
//! as long as the emulator reads it.

use std::ops::{Index, Range};
use vstd::prelude::*;

verus! {

/// A chunk of memory that is not managed by the emulator: the host
/// allocates it, and the emulator reads it.
pub struct UnmanagedReadOnlyChunk<'a> {
    memory: &'a [u8],
}

impl<'a> UnmanagedReadOnlyChunk<'a> {
    /// The bytes of the chunk.
    pub closed spec fn bytes(&self) -> Seq<u8> {
        self.memory@
    }

    pub fn new(memory: &'a [u8]) -> (r: Self)
        ensures
            r.bytes() == memory@,
    {
        Self { memory }
    }

    /// The length of the chunk, modulo 2^32.
    pub fn len(&self) -> (r: u32)
        ensures
            r == self.bytes().len() as u32,
    {
        self.memory.len() as u32
    }
}

impl<'a> Index<Range<u32>> for UnmanagedReadOnlyChunk<'a> {
    type Output = [u8];

    /// The bytes from `index.start` up to `index.end`.
    fn index(&self, index: Range<u32>) -> (r: &[u8])
        ensures
            r@ == self.bytes().subrange(index.start as int, index.end as int),
    {
        vstd::slice::slice_subrange(self.memory, index.start as usize, index.end as usize)
    }
}

impl<'a> vstd::std_specs::core::IndexSpecImpl<Range<u32>> for UnmanagedReadOnlyChunk<'a> {
    open spec fn index_req(&self, index: &Range<u32>) -> bool {
        index.start <= index.end <= self.bytes().len()
    }
}

/// A chunk of host memory that the emulator reads and writes.
pub struct UnmanagedReadWriteChunk<'a> {
    memory: &'a mut [u8],
}

impl<'a> UnmanagedReadWriteChunk<'a> {
    /// The bytes of the chunk.
    pub closed spec fn bytes(&self) -> Seq<u8> {
        self.memory@
    }

    pub fn new(memory: &'a mut [u8]) -> (r: Self)
        ensures
            r.bytes() == old(memory)@,
    {
        Self { memory }
    }

    /// The length of the chunk, modulo 2^32.
    pub fn len(&self) -> (r: u32)
        ensures
            r == self.bytes().len() as u32,
    {
        self.memory.len() as u32
    }
}

impl<'a> Index<Range<u32>> for UnmanagedReadWriteChunk<'a> {
    type Output = [u8];

    /// The bytes from `index.start` up to `index.end`.
    fn index(&self, index: Range<u32>) -> (r: &[u8])
        ensures
            r@ == self.bytes().subrange(index.start as int, index.end as int),
    {
        vstd::slice::slice_subrange(&*self.memory, index.start as usize, index.end as usize)
    }
}

impl<'a> vstd::std_specs::core::IndexSpecImpl<Range<u32>> for UnmanagedReadWriteChunk<'a> {
    open spec fn index_req(&self, index: &Range<u32>) -> bool {
        index.start <= index.end <= self.bytes().len()
    }
}

} // verus!
