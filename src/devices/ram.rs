use vstd::prelude::*;
use crate::memory::{MemoryError, MemResult, mem_read8};

verus! {

/// Read-write memory: `data.len()` bytes from physical address `base` on.
pub struct Ram {
    base: u32,
    data: Vec<u8>,
}

impl View for Ram {
    type V = (u32, Seq<u8>);

    closed spec fn view(&self) -> (u32, Seq<u8>) {
        (self.base, self.data@)
    }
}

impl Ram {
    /// `size` zero bytes at `base`; the memory must end inside the 32-bit address space.
    pub fn new(base: u32, size: usize) -> (r: Self)
        requires
            1 <= size,
            base + size <= 0x1_0000_0000,
        ensures
            r@ == (base, Seq::new(size as nat, |i: int| 0u8)),
    {
        Ram { base, data: zeroed(size) }
    }

    fn offset(&self, paddr: u32) -> (r: Option<usize>)
        ensures
            r == if self@.0 <= paddr < self@.0 + self@.1.len() {
                Some((paddr - self@.0) as usize)
            } else {
                None::<usize>
            },
    {
        if paddr >= self.base && ((paddr - self.base) as usize) < self.data.len() {
            Some((paddr - self.base) as usize)
        } else {
            None
        }
    }

    /// The inclusive range of physical addresses covered.
    pub fn range(&self) -> (r: (u32, u32))
        requires
            crate::memory::mem_fits(self@.0, self@.1),
        ensures
            r == (self@.0, (self@.0 + self@.1.len() - 1) as u32),
    {
        (self.base, self.base + (self.data.len() - 1) as u32)
    }

    pub fn read8(&self, paddr: u32) -> (r: MemResult<u8>)
        ensures
            r == mem_read8(self@.0, self@.1, paddr),
    {
        match self.offset(paddr) {
            Some(off) => Ok(self.data[off]),
            None => Err(MemoryError::Unmapped(paddr)),
        }
    }

    pub fn write8(&mut self, paddr: u32, value: u8) -> (r: MemResult<()>)
        ensures
            final(self)@.0 == old(self)@.0,
            r == if old(self)@.0 <= paddr < old(self)@.0 + old(self)@.1.len() {
                Ok::<(), MemoryError>(())
            } else {
                Err(MemoryError::Unmapped(paddr))
            },
            final(self)@.1 == if r is Ok {
                old(self)@.1.update(paddr - old(self)@.0, value)
            } else {
                old(self)@.1
            },
    {
        match self.offset(paddr) {
            Some(off) => {
                self.data.set(off, value);
                Ok(())
            },
            None => Err(MemoryError::Unmapped(paddr)),
        }
    }
}

/// `size` zero bytes.
pub fn zeroed(size: usize) -> (r: Vec<u8>)
    ensures
        r@ == Seq::new(size as nat, |i: int| 0u8),
{
    let mut v: Vec<u8> = Vec::new();
    let mut k: usize = 0;
    while k < size
        invariant
            k <= size,
            v@ == Seq::new(k as nat, |i: int| 0u8),
        decreases size - k,
    {
        v.push(0);
        k = k + 1;
        assert(v@ =~= Seq::new(k as nat, |i: int| 0u8));
    }
    v
}

} // verus!
