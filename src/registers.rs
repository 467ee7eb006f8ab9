use vstd::prelude::*;

verus! {

/// Reset value of the program counter: the boot vector in KSEG1.
pub const RESET_VECTOR: u32 = 0xBFC0_0000;

/// The general-purpose register file and the special registers.
#[derive(Clone, Copy, Debug)]
pub struct Registers {
    pub general: [u32; 32],
    pub special: SpecialRegisters,
}

#[derive(Clone, Copy, Debug)]
pub struct SpecialRegisters {
    pub hi: u32,
    pub lo: u32,
    pub pc: u32,
    pub epc: u32,
    pub status: u32,
    pub cause: u32,
    pub badvaddr: u32,
    pub index: u32,
    pub random: u32,
    pub entrylo0: u32,
    pub entrylo1: u32,
    pub count: u32,
    pub compare: u32,
    pub entryhi: u32,
}

/// The register file as a value of logic.
pub struct RegisterFile {
    pub gpr: Seq<u32>,
    pub special: SpecialRegisters,
}

impl View for Registers {
    type V = RegisterFile;

    open spec fn view(&self) -> RegisterFile {
        RegisterFile { gpr: self.general@, special: self.special }
    }
}

/// Names of the special registers.
#[derive(Clone, Copy, Debug, PartialEq, Eq)]
pub enum SpecialReg {
    Hi,
    Lo,
    Pc,
    Epc,
    Status,
    Cause,
    BadVAddr,
    Index,
    Random,
    EntryLo0,
    EntryLo1,
    Count,
    Compare,
    EntryHi,
}

impl SpecialRegisters {
    /// The special registers after reset: PC at the boot vector, Random at 31, all else 0.
    pub open spec fn initial() -> SpecialRegisters {
        SpecialRegisters {
            hi: 0,
            lo: 0,
            pc: RESET_VECTOR,
            epc: 0,
            status: 0,
            cause: 0,
            badvaddr: 0,
            index: 0,
            random: 31,
            entrylo0: 0,
            entrylo1: 0,
            count: 0,
            compare: 0,
            entryhi: 0,
        }
    }

    pub open spec fn get(self, name: SpecialReg) -> u32 {
        match name {
            SpecialReg::Hi => self.hi,
            SpecialReg::Lo => self.lo,
            SpecialReg::Pc => self.pc,
            SpecialReg::Epc => self.epc,
            SpecialReg::Status => self.status,
            SpecialReg::Cause => self.cause,
            SpecialReg::BadVAddr => self.badvaddr,
            SpecialReg::Index => self.index,
            SpecialReg::Random => self.random,
            SpecialReg::EntryLo0 => self.entrylo0,
            SpecialReg::EntryLo1 => self.entrylo1,
            SpecialReg::Count => self.count,
            SpecialReg::Compare => self.compare,
            SpecialReg::EntryHi => self.entryhi,
        }
    }

    /// The same registers with the one named replaced by `v`.
    pub open spec fn set(self, name: SpecialReg, v: u32) -> SpecialRegisters {
        match name {
            SpecialReg::Hi => SpecialRegisters { hi: v, ..self },
            SpecialReg::Lo => SpecialRegisters { lo: v, ..self },
            SpecialReg::Pc => SpecialRegisters { pc: v, ..self },
            SpecialReg::Epc => SpecialRegisters { epc: v, ..self },
            SpecialReg::Status => SpecialRegisters { status: v, ..self },
            SpecialReg::Cause => SpecialRegisters { cause: v, ..self },
            SpecialReg::BadVAddr => SpecialRegisters { badvaddr: v, ..self },
            SpecialReg::Index => SpecialRegisters { index: v, ..self },
            SpecialReg::Random => SpecialRegisters { random: v, ..self },
            SpecialReg::EntryLo0 => SpecialRegisters { entrylo0: v, ..self },
            SpecialReg::EntryLo1 => SpecialRegisters { entrylo1: v, ..self },
            SpecialReg::Count => SpecialRegisters { count: v, ..self },
            SpecialReg::Compare => SpecialRegisters { compare: v, ..self },
            SpecialReg::EntryHi => SpecialRegisters { entryhi: v, ..self },
        }
    }
}

impl Default for SpecialRegisters {
    fn default() -> (r: Self)
        ensures
            r == SpecialRegisters::initial(),
    {
        SpecialRegisters {
            hi: 0,
            lo: 0,
            pc: RESET_VECTOR,
            epc: 0,
            status: 0,
            cause: 0,
            badvaddr: 0,
            index: 0,
            random: 31,
            entrylo0: 0,
            entrylo1: 0,
            count: 0,
            compare: 0,
            entryhi: 0,
        }
    }
}

impl Default for Registers {
    fn default() -> (r: Self)
        ensures
            r.is_initial(),
    {
        let general = [0u32; 32];
        assert(general@ =~= Seq::new(32, |i: int| 0u32));
        Registers { general, special: SpecialRegisters::default() }
    }
}

/// What `read` returns for register `i` of the general file `g`: register 0 reads as zero.
pub open spec fn gpr_value(g: Seq<u32>, i: int) -> u32 {
    if i == 0 {
        0
    } else {
        g[i]
    }
}

/// The general file after `write(i, v)`: writes to register 0 or past the file are ignored.
pub open spec fn gpr_after_write(g: Seq<u32>, i: int, v: u32) -> Seq<u32> {
    if i == 0 || i >= 32 {
        g
    } else {
        g.update(i, v)
    }
}

impl Registers {
    /// All general registers 0, special registers at their reset values.
    pub open spec fn is_initial(self) -> bool {
        &&& self.general@ == Seq::new(32, |i: int| 0u32)
        &&& self.special == SpecialRegisters::initial()
    }

    pub fn new() -> (r: Self)
        ensures
            r.is_initial(),
    {
        Self::default()
    }

    pub fn reset(&mut self)
        ensures
            final(self).is_initial(),
    {
        *self = Self::default();
    }

    pub fn get_pc(&self) -> (r: u32)
        ensures
            r == self.special.pc,
    {
        self.special.pc
    }

    pub fn set_pc(&mut self, value: u32)
        ensures
            final(self).special == (SpecialRegisters { pc: value, ..old(self).special }),
            final(self).general == old(self).general,
    {
        self.special.pc = value;
    }

    pub fn get_gpc(&self) -> (r: u32)
        ensures
            r == self.general@[28],
    {
        self.general[28]
    }

    pub fn set_gpc(&mut self, value: u32)
        ensures
            final(self).general@ == old(self).general@.update(28, value),
            final(self).special == old(self).special,
    {
        self.general[28] = value;
    }

    pub fn get_sp(&self) -> (r: u32)
        ensures
            r == self.general@[29],
    {
        self.general[29]
    }

    pub fn set_sp(&mut self, value: u32)
        ensures
            final(self).general@ == old(self).general@.update(29, value),
            final(self).special == old(self).special,
    {
        self.general[29] = value;
    }

    pub fn get_fp(&self) -> (r: u32)
        ensures
            r == self.general@[30],
    {
        self.general[30]
    }

    pub fn set_fp(&mut self, value: u32)
        ensures
            final(self).general@ == old(self).general@.update(30, value),
            final(self).special == old(self).special,
    {
        self.general[30] = value;
    }

    pub fn read(&self, index: usize) -> (r: u32)
        requires
            index < 32,
        ensures
            r == gpr_value(self.general@, index as int),
    {
        if index == 0 {
            0
        } else {
            self.general[index]
        }
    }

    pub fn write(&mut self, index: usize, value: u32)
        ensures
            final(self).general@ == gpr_after_write(old(self).general@, index as int, value),
            final(self).special == old(self).special,
    {
        if index != 0 && index < 32 {
            self.general[index] = value;
        }
    }

    pub fn read_special(&self, name: SpecialReg) -> (r: u32)
        ensures
            r == self.special.get(name),
    {
        match name {
            SpecialReg::Hi => self.special.hi,
            SpecialReg::Lo => self.special.lo,
            SpecialReg::Pc => self.special.pc,
            SpecialReg::Epc => self.special.epc,
            SpecialReg::Status => self.special.status,
            SpecialReg::Cause => self.special.cause,
            SpecialReg::BadVAddr => self.special.badvaddr,
            SpecialReg::Index => self.special.index,
            SpecialReg::Random => self.special.random,
            SpecialReg::EntryLo0 => self.special.entrylo0,
            SpecialReg::EntryLo1 => self.special.entrylo1,
            SpecialReg::Count => self.special.count,
            SpecialReg::Compare => self.special.compare,
            SpecialReg::EntryHi => self.special.entryhi,
        }
    }

    pub fn write_special(&mut self, name: SpecialReg, value: u32)
        ensures
            final(self).special == old(self).special.set(name, value),
            final(self).general == old(self).general,
    {
        match name {
            SpecialReg::Hi => self.special.hi = value,
            SpecialReg::Lo => self.special.lo = value,
            SpecialReg::Pc => self.special.pc = value,
            SpecialReg::Epc => self.special.epc = value,
            SpecialReg::Status => self.special.status = value,
            SpecialReg::Cause => self.special.cause = value,
            SpecialReg::BadVAddr => self.special.badvaddr = value,
            SpecialReg::Index => self.special.index = value,
            SpecialReg::Random => self.special.random = value,
            SpecialReg::EntryLo0 => self.special.entrylo0 = value,
            SpecialReg::EntryLo1 => self.special.entrylo1 = value,
            SpecialReg::Count => self.special.count = value,
            SpecialReg::Compare => self.special.compare = value,
            SpecialReg::EntryHi => self.special.entryhi = value,
        }
    }

    /// Advances the Count register by one, wrapping at 2^32.
    pub fn tick(&mut self)
        ensures
            final(self).special == (SpecialRegisters {
                count: (if old(self).special.count == u32::MAX {
                    0
                } else {
                    (old(self).special.count + 1) as u32
                }),
                ..old(self).special
            }),
            final(self).general == old(self).general,
    {
        self.special.count = self.special.count.wrapping_add(1);
    }
}

/// Register 0 stays zero: whatever is written to it, a read of it gives 0.
pub proof fn lemma_zero_register_reads_zero(g: Seq<u32>, v: u32)
    requires
        g.len() == 32,
    ensures
        gpr_value(gpr_after_write(g, 0, v), 0) == 0,
{
}

} // verus!
