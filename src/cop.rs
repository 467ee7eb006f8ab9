use vstd::prelude::*;

verus! {

/// Index of the Status register in coprocessor 0.
pub const COP0_STATUS: usize = 12;

/// Index of the Cause register in coprocessor 0.
pub const COP0_CAUSE: usize = 13;

/// Index of the EPC register in coprocessor 0.
pub const COP0_EPC: usize = 14;

/// Index of the BadVAddr register in coprocessor 0.
pub const COP0_BADVADDR: usize = 8;

/// Coprocessor 0: thirty-two directly addressed system registers.
pub struct Cop0 {
    pub regs: [u32; 32],
}

/// Coprocessor 1: thirty-two double-precision registers, held as their IEEE-754 bit
/// patterns, with the control and implementation registers. No operation reads them.
pub struct Cop1 {
    pub f: [u64; 32],
    pub fcsr: u32,
    pub fir: u32,
}

impl Default for Cop0 {
    fn default() -> (r: Self)
        ensures
            r.regs@ == Seq::new(32, |i: int| 0u32),
    {
        let regs = [0u32; 32];
        assert(regs@ =~= Seq::new(32, |i: int| 0u32));
        Cop0 { regs }
    }
}

impl Default for Cop1 {
    fn default() -> (r: Self)
        ensures
            r.f@ == Seq::new(32, |i: int| 0u64),
            r.fcsr == 0,
            r.fir == 0,
    {
        let f = [0u64; 32];
        assert(f@ =~= Seq::new(32, |i: int| 0u64));
        Cop1 { f, fcsr: 0, fir: 0 }
    }
}

impl Cop0 {
    pub fn new() -> (r: Self)
        ensures
            r.regs@ == Seq::new(32, |i: int| 0u32),
    {
        Self::default()
    }

    pub fn read(&self, index: usize) -> (r: u32)
        requires
            index < 32,
        ensures
            r == self.regs@[index as int],
    {
        self.regs[index]
    }

    pub fn write(&mut self, index: usize, value: u32)
        requires
            index < 32,
        ensures
            final(self).regs@ == old(self).regs@.update(index as int, value),
    {
        self.regs[index] = value;
    }

    pub fn status(&self) -> (r: u32)
        ensures
            r == self.regs@[COP0_STATUS as int],
    {
        self.regs[COP0_STATUS]
    }

    pub fn set_status(&mut self, value: u32)
        ensures
            final(self).regs@ == old(self).regs@.update(COP0_STATUS as int, value),
    {
        self.regs[COP0_STATUS] = value;
    }

    pub fn cause(&self) -> (r: u32)
        ensures
            r == self.regs@[COP0_CAUSE as int],
    {
        self.regs[COP0_CAUSE]
    }

    pub fn epc(&self) -> (r: u32)
        ensures
            r == self.regs@[COP0_EPC as int],
    {
        self.regs[COP0_EPC]
    }

    pub fn set_epc(&mut self, value: u32)
        ensures
            final(self).regs@ == old(self).regs@.update(COP0_EPC as int, value),
    {
        self.regs[COP0_EPC] = value;
    }

    pub fn badvaddr(&self) -> (r: u32)
        ensures
            r == self.regs@[COP0_BADVADDR as int],
    {
        self.regs[COP0_BADVADDR]
    }

    /// Sets the bits of `bit` in Status.
    pub fn set_status_bit(&mut self, bit: u32)
        ensures
            final(self).regs@ == old(self).regs@.update(
                COP0_STATUS as int,
                old(self).regs@[COP0_STATUS as int] | bit,
            ),
    {
        let v = self.regs[COP0_STATUS] | bit;
        self.regs[COP0_STATUS] = v;
    }

    /// Clears the bits of `bit` in Status.
    pub fn clear_status_bit(&mut self, bit: u32)
        ensures
            final(self).regs@ == old(self).regs@.update(
                COP0_STATUS as int,
                old(self).regs@[COP0_STATUS as int] & !bit,
            ),
    {
        let v = self.regs[COP0_STATUS] & !bit;
        self.regs[COP0_STATUS] = v;
    }

    /// Whether any bit of `bit` is set in Status.
    pub fn status_bit(&self, bit: u32) -> (r: bool)
        ensures
            r == (self.regs@[COP0_STATUS as int] & bit != 0),
    {
        (self.regs[COP0_STATUS] & bit) != 0
    }
}

impl Cop1 {
    pub fn new() -> (r: Self)
        ensures
            r.f@ == Seq::new(32, |i: int| 0u64),
            r.fcsr == 0,
            r.fir == 0,
    {
        Self::default()
    }

    /// The bit pattern of floating-point register `index`.
    pub fn read_bits(&self, index: usize) -> (r: u64)
        requires
            index < 32,
        ensures
            r == self.f@[index as int],
    {
        self.f[index]
    }

    /// Stores a bit pattern into floating-point register `index`.
    pub fn write_bits(&mut self, index: usize, bits: u64)
        requires
            index < 32,
        ensures
            final(self).f@ == old(self).f@.update(index as int, bits),
            final(self).fcsr == old(self).fcsr,
            final(self).fir == old(self).fir,
    {
        self.f[index] = bits;
    }

    pub fn fcsr(&self) -> (r: u32)
        ensures
            r == self.fcsr,
    {
        self.fcsr
    }

    pub fn set_fcsr(&mut self, value: u32)
        ensures
            final(self).fcsr == value,
            final(self).f == old(self).f,
            final(self).fir == old(self).fir,
    {
        self.fcsr = value;
    }

    pub fn fir(&self) -> (r: u32)
        ensures
            r == self.fir,
    {
        self.fir
    }
}

} // verus!
