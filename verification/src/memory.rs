//! A plain byte memory: the building block for HRAM and other flat
//! regions without banking.

use vstd::prelude::*;

verus! {

/// A flat byte array addressed from zero.
#[derive(Debug)]
pub struct Memory {
    pub inner: Vec<u8>,
}

impl Memory {
    /// Wrap a byte buffer; `size` names its length.
    pub fn new(inner: Vec<u8>, size: usize) -> (r: Memory)
        requires
            inner@.len() == size,
        ensures
            r.inner@ == inner@,
    {
        Memory { inner }
    }

    /// A zeroed memory of the given length.
    pub fn zeroed(size: usize) -> (r: Memory)
        ensures
            r.inner@ =~= Seq::new(size as nat, |i: int| 0u8),
    {
        let mut inner: Vec<u8> = Vec::new();
        let mut i: usize = 0;
        while i < size
            invariant
                i <= size,
                inner@ =~= Seq::new(i as nat, |j: int| 0u8),
            decreases size - i,
        {
            inner.push(0);
            i = i + 1;
        }
        Memory { inner }
    }

    /// The number of bytes held.
    pub fn size(&self) -> (r: usize)
        ensures
            r == self.inner@.len(),
    {
        self.inner.len()
    }

    /// Read a byte.
    pub fn read(&self, addr: u16) -> (r: u8)
        requires
            addr < self.inner@.len(),
        ensures
            r == self.inner@[addr as int],
    {
        self.inner[addr as usize]
    }

    /// Store a byte.
    pub fn write(&mut self, addr: u16, data: u8)
        requires
            addr < old(self).inner@.len(),
        ensures
            final(self).inner@ == old(self).inner@.update(addr as int, data),
    {
        self.inner.set(addr as usize, data);
    }
}

} // verus!
