use vstd::prelude::*;
use crate::memory::{MemoryError, MemResult, mem_read8};

verus! {

/// Read-only memory holding an image from physical address `base` on.
pub struct Rom {
    base: u32,
    data: Vec<u8>,
}

impl View for Rom {
    type V = (u32, Seq<u8>);

    closed spec fn view(&self) -> (u32, Seq<u8>) {
        (self.base, self.data@)
    }
}

impl Rom {
    /// The image `data` at `base`; it must be non-empty and end inside the address space.
    pub fn new(base: u32, data: Vec<u8>) -> (r: Self)
        requires
            1 <= data@.len(),
            base + data@.len() <= 0x1_0000_0000,
        ensures
            r@ == (base, data@),
    {
        Rom { base, data }
    }

    fn offset(&self, paddr: u32) -> (r: Option<usize>)
        ensures
            r == if self@.0 <= paddr < self@.0 + self@.1.len() {
                Some((paddr - self@.0) as usize)
            } else {
                None::<usize>
            },
    {
        if paddr >= self.base && ((paddr - self.base) as usize) < self.data.len() {
            Some((paddr - self.base) as usize)
        } else {
            None
        }
    }

    /// The inclusive range of physical addresses covered.
    pub fn range(&self) -> (r: (u32, u32))
        requires
            crate::memory::mem_fits(self@.0, self@.1),
        ensures
            r == (self@.0, (self@.0 + self@.1.len() - 1) as u32),
    {
        (self.base, self.base + (self.data.len() - 1) as u32)
    }

    pub fn read8(&self, paddr: u32) -> (r: MemResult<u8>)
        ensures
            r == mem_read8(self@.0, self@.1, paddr),
    {
        match self.offset(paddr) {
            Some(off) => Ok(self.data[off]),
            None => Err(MemoryError::Unmapped(paddr)),
        }
    }

    /// Every store fails; the image is unchanged.
    pub fn write8(&self, paddr: u32, _value: u8) -> (r: MemResult<()>)
        ensures
            r == Err::<(), MemoryError>(MemoryError::RomWrite(paddr)),
    {
        Err(MemoryError::RomWrite(paddr))
    }
}

} // verus!
