use vstd::prelude::*;
use crate::devices::ram::zeroed;
use crate::memory::{MemoryError, MemResult, mem_read8};

verus! {

/// Video memory: a byte buffer mapped at `base` that the GPU also draws into.
pub struct GpuVram {
    base: u32,
    data: Vec<u8>,
}

impl View for GpuVram {
    type V = (u32, Seq<u8>);

    closed spec fn view(&self) -> (u32, Seq<u8>) {
        (self.base, self.data@)
    }
}

impl GpuVram {
    /// `size` zero bytes at `base`; the memory must end inside the address space.
    pub fn new(base: u32, size: usize) -> (r: Self)
        requires
            1 <= size,
            base + size <= 0x1_0000_0000,
        ensures
            r@ == (base, Seq::new(size as nat, |i: int| 0u8)),
    {
        GpuVram { base, data: zeroed(size) }
    }

    fn to_off(&self, paddr: u32) -> (r: Option<usize>)
        ensures
            r == if self@.0 <= paddr < self@.0 + self@.1.len() {
                Some((paddr - self@.0) as usize)
            } else {
                None::<usize>
            },
    {
        if paddr >= self.base && ((paddr - self.base) as usize) < self.data.len() {
            Some((paddr - self.base) as usize)
        } else {
            None
        }
    }

    /// First and last physical address covered.
    pub fn range_bounds(&self) -> (r: (u32, u32))
        requires
            crate::memory::mem_fits(self@.0, self@.1),
        ensures
            r == (self@.0, (self@.0 + self@.1.len() - 1) as u32),
    {
        (self.base, self.base + (self.data.len() - 1) as u32)
    }

    /// The bytes, for direct access by the host or the GPU.
    pub fn slice(&self) -> (r: &Vec<u8>)
        ensures
            r@ == self@.1,
    {
        &self.data
    }

    /// The bytes, mutably; the base stays as it is.
    pub fn slice_mut(&mut self) -> (r: &mut Vec<u8>)
        ensures
            r@ == old(self)@.1,
            final(self)@ == (old(self)@.0, final(r)@),
    {
        &mut self.data
    }

    /// Exchanges the bytes with `other`.
    pub fn swap_data(&mut self, other: &mut Vec<u8>)
        ensures
            final(self)@ == (old(self)@.0, old(other)@),
            final(other)@ == old(self)@.1,
    {
        core::mem::swap(&mut self.data, other);
    }

    pub fn read8(&self, paddr: u32) -> (r: MemResult<u8>)
        ensures
            r == mem_read8(self@.0, self@.1, paddr),
    {
        match self.to_off(paddr) {
            Some(off) => Ok(self.data[off]),
            None => Err(MemoryError::Unmapped(paddr)),
        }
    }

    pub fn write8(&mut self, paddr: u32, value: u8) -> (r: MemResult<()>)
        ensures
            final(self)@.0 == old(self)@.0,
            r == if old(self)@.0 <= paddr < old(self)@.0 + old(self)@.1.len() {
                Ok::<(), MemoryError>(())
            } else {
                Err(MemoryError::Unmapped(paddr))
            },
            final(self)@.1 == if r is Ok {
                old(self)@.1.update(paddr - old(self)@.0, value)
            } else {
                old(self)@.1
            },
    {
        match self.to_off(paddr) {
            Some(off) => {
                self.data.set(off, value);
                Ok(())
            },
            None => Err(MemoryError::Unmapped(paddr)),
        }
    }
}

} // verus!
