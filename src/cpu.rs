use vstd::prelude::*;
use crate::alu::{ALU, alu_spec, sext16, sx, wrap32, wrap64, hi_word, lo_word,
    sign_extend16, signed_product, unsigned_product, split_word};
use crate::cop::{Cop0, Cop1};
use crate::devices::raster::le_bytes;
use crate::instructions::{Instruction, RType, IType, JType, Special2};
use crate::memory::{MemoryBus, DeviceModel, translate, bus_read8, bus_read16, bus_read32,
    bus_write8, bus_write_bytes, le16};
use crate::registers::{Registers, RegisterFile, gpr_value, gpr_after_write, RESET_VECTOR};

verus! {

/// Initial stack pointer: 4 KiB below the top of the first MiB of KSEG0.
pub const INITIAL_SP: u32 = 0x8000_0000 + 0x0010_0000 - 0x1000;

/// The processor and its memory as a value of logic.
pub struct Machine {
    pub regs: RegisterFile,
    pub mem: Seq<DeviceModel>,
}

pub open spec fn gpr(m: Machine, i: u8) -> u32 {
    gpr_value(m.regs.gpr, i as int)
}

pub open spec fn with_gpr(m: Machine, i: int, v: u32) -> Machine {
    Machine { regs: RegisterFile { gpr: gpr_after_write(m.regs.gpr, i, v), ..m.regs }, ..m }
}

pub open spec fn with_pc(m: Machine, pc: u32) -> Machine {
    Machine {
        regs: RegisterFile { special: crate::registers::SpecialRegisters { pc, ..m.regs.special }, ..m.regs },
        ..m
    }
}

/// HI and LO replaced where a new value is given.
pub open spec fn with_hilo(m: Machine, hi: Option<u32>, lo: Option<u32>) -> Machine {
    let s = m.regs.special;
    Machine {
        regs: RegisterFile {
            special: crate::registers::SpecialRegisters {
                hi: match hi {
                    Some(h) => h,
                    None => s.hi,
                },
                lo: match lo {
                    Some(l) => l,
                    None => s.lo,
                },
                ..s
            },
            ..m.regs
        },
        ..m
    }
}

pub open spec fn with_mem(m: Machine, mem: Seq<DeviceModel>) -> Machine {
    Machine { mem, ..m }
}

/// A word read at a virtual address.
pub open spec fn virt_read32(mem: Seq<DeviceModel>, vaddr: u32) -> Result<u32, crate::memory::MemoryError> {
    match translate(vaddr) {
        Ok(p) => bus_read32(mem, p),
        Err(e) => Err(e),
    }
}

/// A byte read at a virtual address.
pub open spec fn virt_read8(mem: Seq<DeviceModel>, vaddr: u32) -> Result<u8, crate::memory::MemoryError> {
    match translate(vaddr) {
        Ok(p) => bus_read8(mem, p),
        Err(e) => Err(e),
    }
}

/// Memory after a store of `bytes` at a virtual address; a failed store changes only the
/// bytes stored before the failure.
pub open spec fn virt_store(mem: Seq<DeviceModel>, vaddr: u32, bytes: Seq<u8>) -> Seq<DeviceModel> {
    match translate(vaddr) {
        Ok(p) => bus_write_bytes(mem, p, bytes).0,
        Err(_) => mem,
    }
}

/// Fetch: the word at PC, with PC advanced by 4; nothing when the read fails.
pub open spec fn fetch_spec(m: Machine) -> Option<(u32, Machine)> {
    match virt_read32(m.mem, m.regs.special.pc) {
        Ok(w) => Some((w, with_pc(m, wrap32(m.regs.special.pc + 4)))),
        Err(_) => None,
    }
}

/// A byte sign-extended to 32 bits.
pub open spec fn sext8(b: u8) -> u32 {
    if b >= 0x80 {
        (b + 0xFFFF_FF00) as u32
    } else {
        b as u32
    }
}

/// PC plus a branch offset of `imm` words.
pub open spec fn branch_target(pc: u32, imm: u16) -> u32 {
    wrap32(pc + wrap32(sext16(imm) * 4))
}

/// The result of a value loaded into `rt`: register 0 stays 0.
pub open spec fn load_into(m: Machine, rt: u8, v: u32) -> (Machine, u32) {
    (if rt != 0 {
        with_gpr(m, rt as int, v)
    } else {
        m
    }, v)
}

/// Executes one instruction; a taken branch or jump first runs its delay slot.
pub open spec fn exec_spec(m: Machine, instr: Instruction) -> (Machine, u32)
    decreases 0x1_0000_0000 - m.regs.special.pc, 3int,
{
    match instr {
        Instruction::RType(r) => rtype_spec(m, r),
        Instruction::IType(i) => itype_spec(m, i),
        Instruction::JType(j) => jtype_spec(m, j),
        Instruction::Special2(s) => (special2_spec(m, s), 0),
        _ => (m, 0),
    }
}

/// The delay slot: the next instruction fetched and executed, or nothing when the fetch
/// fails.
pub open spec fn delay_spec(m: Machine) -> Machine
    decreases 0x1_0000_0000 - m.regs.special.pc, 0int,
{
    match fetch_spec(m) {
        Some((w, m1)) => exec_spec(m1, Instruction::from_word(w)).0,
        None => m,
    }
}

pub open spec fn rtype_spec(m: Machine, r: RType) -> (Machine, u32)
    decreases 0x1_0000_0000 - m.regs.special.pc, 2int,
{
    let rs = gpr(m, r.rs);
    let rt = gpr(m, r.rt);
    if r.funct == 0x08 {
        (with_pc(delay_spec(m), rs), 0)
    } else if r.funct == 0x09 {
        let link = wrap32(m.regs.special.pc + 4);
        let m1 = if r.rd != 0 {
            with_gpr(m, r.rd as int, link)
        } else {
            m
        };
        (with_pc(delay_spec(m1), rs), 0)
    } else {
        alu_rtype_spec(m, r)
    }
}

/// A register-format ALU operation: HI and LO where it writes them, then `rd`.
pub open spec fn alu_rtype_spec(m: Machine, r: RType) -> (Machine, u32) {
    let s = m.regs.special;
    let res = alu_spec(gpr(m, r.rs), gpr(m, r.rt), r.shamt, 0, r.opcode, r.funct, false, s.hi, s.lo);
    let m1 = with_hilo(m, res.hi, res.lo);
    (if r.rd != 0 {
        with_gpr(m1, r.rd as int, res.value)
    } else {
        m1
    }, res.value)
}

/// Whether a conditional branch of the BEQ group is taken.
pub open spec fn branch_taken(op: u8, rs: u32, rt: u32) -> bool {
    if op == 0x04 {
        rs == rt
    } else if op == 0x05 {
        rs != rt
    } else if op == 0x06 {
        sx(rs) <= 0
    } else {
        sx(rs) > 0
    }
}

/// Condition and link flag of the REGIMM branches, by `rt` selector.
pub open spec fn regimm(sel: u8, rs: u32) -> (bool, bool) {
    if sel == 0x00 {
        (sx(rs) < 0, false)
    } else if sel == 0x01 {
        (sx(rs) >= 0, false)
    } else if sel == 0x10 {
        (sx(rs) < 0, true)
    } else if sel == 0x11 {
        (sx(rs) >= 0, true)
    } else {
        (false, false)
    }
}

pub open spec fn itype_spec(m: Machine, i: IType) -> (Machine, u32)
    decreases 0x1_0000_0000 - m.regs.special.pc, 2int,
{
    let op = i.opcode;
    if 0x04 <= op <= 0x07 {
        (branch_spec(m, i), 0)
    } else if op == 0x01 {
        (regimm_spec(m, i), 0)
    } else if is_load_store(op) {
        mem_op_spec(m, i)
    } else {
        let s = m.regs.special;
        let res = alu_spec(gpr(m, i.rs), gpr(m, i.rt), 0, i.imm, op, 0, true, s.hi, s.lo);
        (if i.rt != 0 {
            with_gpr(m, i.rt as int, res.value)
        } else {
            m
        }, res.value)
    }
}

/// BEQ, BNE, BLEZ, BGTZ: only a taken branch runs the delay slot, then jumps relative to
/// the delay slot's address.
pub open spec fn branch_spec(m: Machine, i: IType) -> Machine
    decreases 0x1_0000_0000 - m.regs.special.pc, 1int,
{
    if branch_taken(i.opcode, gpr(m, i.rs), gpr(m, i.rt)) {
        with_pc(delay_spec(m), branch_target(m.regs.special.pc, i.imm))
    } else {
        m
    }
}

/// BLTZ, BGEZ, BLTZAL, BGEZAL: the delay slot always runs; a taken branch then links
/// (for the AL forms) and jumps relative to PC as the delay slot left it.
pub open spec fn regimm_spec(m: Machine, i: IType) -> Machine
    decreases 0x1_0000_0000 - m.regs.special.pc, 1int,
{
    let (cond, link) = regimm(i.rt, gpr(m, i.rs));
    let m1 = delay_spec(m);
    if cond {
        regimm_jump(m1, link, i.imm)
    } else {
        m1
    }
}

/// A taken REGIMM branch after its delay slot: link 4 past PC for the AL forms, then jump
/// relative to PC.
pub open spec fn regimm_jump(m: Machine, link: bool, imm: u16) -> Machine {
    let pc = m.regs.special.pc;
    let m2 = if link {
        with_gpr(m, 31, wrap32(pc + 4))
    } else {
        m
    };
    with_pc(m2, branch_target(pc, imm))
}

/// The opcodes of the loads and stores.
pub open spec fn is_load_store(op: u8) -> bool {
    op == 0x20 || op == 0x21 || op == 0x23 || op == 0x24 || op == 0x25 || op == 0x28 || op == 0x29
        || op == 0x2B
}

/// Memory after a byte store at a virtual address; a failed store changes nothing.
pub open spec fn virt_store8(mem: Seq<DeviceModel>, vaddr: u32, b: u8) -> Seq<DeviceModel> {
    match translate(vaddr) {
        Ok(p) => bus_write8(mem, p, b).0,
        Err(_) => mem,
    }
}

/// Loads and stores at `rs + sext(imm)`. A failed load puts 0 in `rt`; failed stores are
/// dropped. LH, LHU and SH address physical memory.
pub open spec fn mem_op_spec(m: Machine, i: IType) -> (Machine, u32) {
    let op = i.opcode;
    if op == 0x28 || op == 0x29 || op == 0x2B {
        (store_spec(m, i), 0)
    } else {
        load_spec(m, i)
    }
}

/// The effective address of a load or store.
pub open spec fn ea(m: Machine, i: IType) -> u32 {
    wrap32(gpr(m, i.rs) + sext16(i.imm))
}

pub open spec fn load_spec(m: Machine, i: IType) -> (Machine, u32) {
    let addr = ea(m, i);
    let op = i.opcode;
    if op == 0x23 {
        match virt_read32(m.mem, addr) {
            Ok(v) => load_into(m, i.rt, v),
            Err(_) => load_into(m, i.rt, 0),
        }
    } else {
        load_into(m, i.rt, loaded_value(m.mem, op, addr))
    }
}

/// What LB (0x20), LBU (0x24), LH (0x21) and LHU (0x25) load; 0 when the read fails.
pub open spec fn loaded_value(mem: Seq<DeviceModel>, op: u8, addr: u32) -> u32 {
    if op == 0x20 {
        match virt_read8(mem, addr) {
            Ok(b) => sext8(b),
            Err(_) => 0,
        }
    } else if op == 0x24 {
        match virt_read8(mem, addr) {
            Ok(b) => b as u32,
            Err(_) => 0,
        }
    } else if op == 0x21 {
        match bus_read16(mem, addr) {
            Ok(h) => sext16(h),
            Err(_) => 0,
        }
    } else {
        match bus_read16(mem, addr) {
            Ok(h) => h as u32,
            Err(_) => 0,
        }
    }
}

pub open spec fn store_spec(m: Machine, i: IType) -> Machine {
    let rt = gpr(m, i.rt);
    let addr = ea(m, i);
    let op = i.opcode;
    if op == 0x2B {
        with_mem(m, virt_store(m.mem, addr, le_bytes(rt)))
    } else if op == 0x28 {
        with_mem(m, virt_store8(m.mem, addr, (rt % 0x100) as u8))
    } else {
        with_mem(m, bus_write_bytes(m.mem, addr, le16((rt % 0x1_0000) as u16)).0)
    }
}

pub open spec fn jtype_spec(m: Machine, j: JType) -> (Machine, u32)
    decreases 0x1_0000_0000 - m.regs.special.pc, 2int,
{
    let pc = m.regs.special.pc;
    let target = (pc & 0xF000_0000) | (j.target << 2u32);
    let m1 = if j.opcode == 0x03 {
        with_gpr(m, 31, wrap32(pc + 4))
    } else {
        m
    };
    (with_pc(delay_spec(m1), target), 0)
}

/// HI:LO as one 64-bit accumulator.
pub open spec fn acc(m: Machine) -> int {
    m.regs.special.hi * 0x1_0000_0000 + m.regs.special.lo
}

pub open spec fn with_acc(m: Machine, x: u64) -> Machine {
    with_hilo(m, Some(hi_word(x)), Some(lo_word(x)))
}

/// MADD, MADDU, MSUB, MSUBU add or subtract the signed or unsigned product to HI:LO;
/// MUL puts the low word of the signed product in `rd` and the product in HI:LO.
pub open spec fn special2_spec(m: Machine, s: Special2) -> Machine {
    let rs = gpr(m, s.rs);
    let rt = gpr(m, s.rt);
    if s.funct == 0x00 {
        with_acc(m, wrap64(acc(m) + sx(rs) * sx(rt)))
    } else if s.funct == 0x01 {
        with_acc(m, wrap64(acc(m) + rs * rt))
    } else if s.funct == 0x02 {
        let p = wrap64(sx(rs) * sx(rt));
        with_acc(with_gpr(m, s.rd as int, lo_word(p)), p)
    } else if s.funct == 0x04 {
        with_acc(m, wrap64(acc(m) - sx(rs) * sx(rt)))
    } else if s.funct == 0x05 {
        with_acc(m, wrap64(acc(m) - rs * rt))
    } else {
        m
    }
}

/// One full step: fetch, then execute; nothing changes when the fetch fails.
pub open spec fn step_spec(m: Machine) -> Machine {
    match fetch_spec(m) {
        Some((w, m1)) => exec_spec(m1, Instruction::from_word(w)).0,
        None => m,
    }
}

/// The processor: register file, coprocessors and ALU.
pub struct CPU {
    pub registers: Registers,
    pub cop0: Cop0,
    pub cop1: Cop1,
    pub alu: ALU,
}

impl CPU {
    pub open spec fn machine(&self, bus: &MemoryBus) -> Machine {
        Machine { regs: self.registers@, mem: bus@ }
    }

    /// The state after reset.
    pub open spec fn is_reset(&self) -> bool {
        &&& self.registers.special == crate::registers::SpecialRegisters::initial()
        &&& self.registers.general@ == Seq::new(32, |i: int| 0u32).update(28, RESET_VECTOR).update(
            29,
            INITIAL_SP,
        ).update(31, RESET_VECTOR)
        &&& self.cop0.regs@ == Seq::new(32, |i: int| 0u32)
        &&& self.cop1.f@ == Seq::new(32, |i: int| 0u64)
        &&& self.cop1.fcsr == 0
        &&& self.cop1.fir == 0
    }

    pub fn new() -> (r: Self)
        ensures
            r.is_reset(),
    {
        let mut cpu = CPU {
            registers: Registers::default(),
            cop0: Cop0::default(),
            cop1: Cop1::default(),
            alu: ALU,
        };
        cpu.reset();
        cpu
    }

    /// Restores the reset state: PC at the boot vector, SP below the top of the first MiB
    /// of KSEG0, GP and RA at the boot vector, coprocessors cleared.
    pub fn reset(&mut self)
        ensures
            final(self).is_reset(),
    {
        self.registers.reset();
        self.cop0 = Cop0::default();
        self.cop1 = Cop1::default();
        self.registers.set_sp(INITIAL_SP);
        self.registers.set_gpc(RESET_VECTOR);
        self.registers.write(31, RESET_VECTOR);
        assert(self.registers.general@ =~= Seq::new(32, |i: int| 0u32).update(28, RESET_VECTOR).update(
            29,
            INITIAL_SP,
        ).update(31, RESET_VECTOR));
    }

    /// Performs one instruction, and the delay slot of a taken branch or jump.
    pub fn step(&mut self, bus: &mut MemoryBus)
        requires
            old(bus).wf(),
        ensures
            final(self).machine(final(bus)) == step_spec(old(self).machine(old(bus))),
            final(bus).wf(),
            final(bus).is_little_endian() == old(bus).is_little_endian(),
            final(self).cop0 == old(self).cop0,
            final(self).cop1 == old(self).cop1,
    {
        let instr_word = match self.fetch(bus) {
            Some(v) => v,
            None => return ,
        };
        let decoded = self.decode(instr_word);
        let exec_result = self.execute(bus, decoded);
        let mem_result = self.memory_access(exec_result);
        self.writeback(mem_result);
    }

    /// Reads the word at PC and advances PC by 4; on failure nothing changes.
    pub fn fetch(&mut self, bus: &mut MemoryBus) -> (r: Option<u32>)
        requires
            old(bus).wf(),
        ensures
            *final(bus) == *old(bus),
            final(bus).is_little_endian() == old(bus).is_little_endian(),
            final(self).cop0 == old(self).cop0,
            final(self).cop1 == old(self).cop1,
            match fetch_spec(old(self).machine(old(bus))) {
                Some((w, m1)) => r == Some(w) && final(self).machine(final(bus)) == m1,
                None => r is None && *final(self) == *old(self),
            },
    {
        let pc = self.registers.get_pc();
        match bus.read32_virt(pc) {
            Ok(instr) => {
                self.registers.special.pc = pc.wrapping_add(4);
                Some(instr)
            },
            Err(_) => None,
        }
    }

    pub fn decode(&self, instr: u32) -> (r: Instruction)
        ensures
            r == Instruction::from_word(instr),
            r.well_formed(),
    {
        Instruction::decode(instr)
    }

    /// The memory stage; every access already happened during execution.
    pub fn memory_access(&mut self, exec_result: u32) -> (r: u32)
        ensures
            r == exec_result,
            *final(self) == *old(self),
    {
        exec_result
    }

    /// The writeback stage; every register write already happened during execution.
    pub fn writeback(&mut self, _mem_result: u32)
        ensures
            *final(self) == *old(self),
    {
    }

    /// Executes a decoded instruction. A taken branch or jump fetches and executes its
    /// delay slot before PC moves to the target. Returns the value computed or loaded, or 0.
    pub fn execute(&mut self, bus: &mut MemoryBus, instr: Instruction) -> (r: u32)
        requires
            old(bus).wf(),
            instr.well_formed(),
        ensures
            (final(self).machine(final(bus)), r) == exec_spec(old(self).machine(old(bus)), instr),
            final(bus).wf(),
            final(bus).is_little_endian() == old(bus).is_little_endian(),
            final(self).cop0 == old(self).cop0,
            final(self).cop1 == old(self).cop1,
        decreases 0x1_0000_0000 - old(self).registers.special.pc, 3int,
    {
        match instr {
            Instruction::RType(r) => self.execute_rtype(bus, r),
            Instruction::IType(i) => self.execute_itype(bus, i),
            Instruction::JType(j) => self.execute_jtype(bus, j),
            Instruction::Special2(s) => {
                self.execute_special2(s);
                0
            },
            _ => 0,
        }
    }

    fn run_delay_slot(&mut self, bus: &mut MemoryBus)
        requires
            old(bus).wf(),
        ensures
            final(self).machine(final(bus)) == delay_spec(old(self).machine(old(bus))),
            final(bus).wf(),
            final(bus).is_little_endian() == old(bus).is_little_endian(),
            final(self).cop0 == old(self).cop0,
            final(self).cop1 == old(self).cop1,
        decreases 0x1_0000_0000 - old(self).registers.special.pc, 0int,
    {
        if let Some(v) = self.fetch(bus) {
            let d = self.decode(v);
            self.execute(bus, d);
        }
    }

    fn execute_rtype(&mut self, bus: &mut MemoryBus, r: RType) -> (res: u32)
        requires
            old(bus).wf(),
            r.rs < 32 && r.rt < 32 && r.rd < 32 && r.shamt < 32,
        ensures
            (final(self).machine(final(bus)), res) == rtype_spec(old(self).machine(old(bus)), r),
            final(bus).wf(),
            final(bus).is_little_endian() == old(bus).is_little_endian(),
            final(self).cop0 == old(self).cop0,
            final(self).cop1 == old(self).cop1,
        decreases 0x1_0000_0000 - old(self).registers.special.pc, 2int,
    {
        let rs_val = self.registers.read(r.rs as usize);
        if r.funct == 0x08 {
            self.run_delay_slot(bus);
            self.registers.special.pc = rs_val;
            return 0;
        }
        if r.funct == 0x09 {
            let link = self.registers.get_pc().wrapping_add(4);
            if r.rd != 0 {
                self.registers.write(r.rd as usize, link);
            }
            self.run_delay_slot(bus);
            self.registers.special.pc = rs_val;
            return 0;
        }
        self.execute_alu_rtype(r)
    }

    fn execute_alu_rtype(&mut self, r: RType) -> (res: u32)
        requires
            r.rs < 32 && r.rt < 32 && r.rd < 32 && r.shamt < 32,
        ensures
            final(self).registers@ == alu_rtype_spec(
                Machine { regs: old(self).registers@, mem: Seq::empty() },
                r,
            ).0.regs,
            res == alu_rtype_spec(Machine { regs: old(self).registers@, mem: Seq::empty() }, r).1,
            final(self).cop0 == old(self).cop0,
            final(self).cop1 == old(self).cop1,
    {
        let res = ALU::execute(
            self.registers.read(r.rs as usize),
            self.registers.read(r.rt as usize),
            r.shamt,
            0,
            r.opcode,
            r.funct,
            false,
            self.registers.special.hi,
            self.registers.special.lo,
        );
        if let Some(hi) = res.hi {
            self.registers.special.hi = hi;
        }
        if let Some(lo) = res.lo {
            self.registers.special.lo = lo;
        }
        if r.rd != 0 {
            self.registers.write(r.rd as usize, res.value);
        }
        res.value
    }

    fn execute_itype(&mut self, bus: &mut MemoryBus, i: IType) -> (res: u32)
        requires
            old(bus).wf(),
            i.rs < 32 && i.rt < 32,
        ensures
            (final(self).machine(final(bus)), res) == itype_spec(old(self).machine(old(bus)), i),
            final(bus).wf(),
            final(bus).is_little_endian() == old(bus).is_little_endian(),
            final(self).cop0 == old(self).cop0,
            final(self).cop1 == old(self).cop1,
        decreases 0x1_0000_0000 - old(self).registers.special.pc, 2int,
    {
        let op = i.opcode;
        if 0x04 <= op && op <= 0x07 {
            self.execute_branch(bus, i);
            return 0;
        }
        if op == 0x01 {
            self.execute_regimm(bus, i);
            return 0;
        }
        if op == 0x20 || op == 0x21 || op == 0x23 || op == 0x24 || op == 0x25 {
            return self.execute_load(bus, i);
        }
        if op == 0x28 || op == 0x29 || op == 0x2B {
            self.execute_store(bus, i);
            return 0;
        }
        let res = ALU::execute(
            self.registers.read(i.rs as usize),
            self.registers.read(i.rt as usize),
            0,
            i.imm,
            op,
            0,
            true,
            self.registers.special.hi,
            self.registers.special.lo,
        );
        if i.rt != 0 {
            self.registers.write(i.rt as usize, res.value);
        }
        res.value
    }

    fn execute_branch(&mut self, bus: &mut MemoryBus, i: IType)
        requires
            old(bus).wf(),
            i.rs < 32 && i.rt < 32,
            0x04 <= i.opcode <= 0x07,
        ensures
            final(self).machine(final(bus)) == branch_spec(old(self).machine(old(bus)), i),
            final(bus).wf(),
            final(bus).is_little_endian() == old(bus).is_little_endian(),
            final(self).cop0 == old(self).cop0,
            final(self).cop1 == old(self).cop1,
        decreases 0x1_0000_0000 - old(self).registers.special.pc, 1int,
    {
        let rs_val = self.registers.read(i.rs as usize);
        let rt_val = self.registers.read(i.rt as usize);
        let op = i.opcode;
        let taken = if op == 0x04 {
            rs_val == rt_val
        } else if op == 0x05 {
            rs_val != rt_val
        } else if op == 0x06 {
            rs_val == 0 || rs_val >= 0x8000_0000
        } else {
            rs_val != 0 && rs_val < 0x8000_0000
        };
        if taken {
            let pc_next = self.registers.get_pc();
            let offset = sign_extend16(i.imm).wrapping_mul(4);
            self.run_delay_slot(bus);
            self.registers.special.pc = pc_next.wrapping_add(offset);
        }
    }

    fn execute_regimm(&mut self, bus: &mut MemoryBus, i: IType)
        requires
            old(bus).wf(),
            i.rs < 32 && i.rt < 32,
        ensures
            final(self).machine(final(bus)) == regimm_spec(old(self).machine(old(bus)), i),
            final(bus).wf(),
            final(bus).is_little_endian() == old(bus).is_little_endian(),
            final(self).cop0 == old(self).cop0,
            final(self).cop1 == old(self).cop1,
        decreases 0x1_0000_0000 - old(self).registers.special.pc, 1int,
    {
        let rs_val = self.registers.read(i.rs as usize);
        let negative = rs_val >= 0x8000_0000;
        let (cond, link) = if i.rt == 0x00 {
            (negative, false)
        } else if i.rt == 0x01 {
            (!negative, false)
        } else if i.rt == 0x10 {
            (negative, true)
        } else if i.rt == 0x11 {
            (!negative, true)
        } else {
            (false, false)
        };
        assert((cond, link) == regimm(i.rt, gpr(self.machine(bus), i.rs)));
        self.run_delay_slot(bus);
        if cond {
            self.take_regimm(link, i.imm);
        }
    }

    fn take_regimm(&mut self, link: bool, imm: u16)
        ensures
            final(self).registers@ == regimm_jump(
                Machine { regs: old(self).registers@, mem: Seq::empty() },
                link,
                imm,
            ).regs,
            final(self).cop0 == old(self).cop0,
            final(self).cop1 == old(self).cop1,
    {
        if link {
            let ra = self.registers.get_pc().wrapping_add(4);
            self.registers.write(31, ra);
        }
        let offset = sign_extend16(imm).wrapping_mul(4);
        self.registers.special.pc = self.registers.get_pc().wrapping_add(offset);
    }

    fn execute_load(&mut self, bus: &mut MemoryBus, i: IType) -> (res: u32)
        requires
            old(bus).wf(),
            i.rs < 32 && i.rt < 32,
            i.opcode == 0x20 || i.opcode == 0x21 || i.opcode == 0x23 || i.opcode == 0x24
                || i.opcode == 0x25,
        ensures
            (final(self).machine(final(bus)), res) == load_spec(old(self).machine(old(bus)), i),
            *final(bus) == *old(bus),
            final(self).cop0 == old(self).cop0,
            final(self).cop1 == old(self).cop1,
    {
        let addr = self.registers.read(i.rs as usize).wrapping_add(sign_extend16(i.imm));
        let op = i.opcode;
        if op == 0x23 {
            return match bus.read32_virt(addr) {
                Ok(val) => {
                    if i.rt != 0 {
                        self.registers.write(i.rt as usize, val);
                    }
                    val
                },
                Err(_) => {
                    if i.rt != 0 {
                        self.registers.write(i.rt as usize, 0);
                    }
                    0
                },
            };
        }
        let val = load_value(bus, op, addr);
        if i.rt != 0 {
            self.registers.write(i.rt as usize, val);
        }
        val
    }

    fn execute_store(&mut self, bus: &mut MemoryBus, i: IType)
        requires
            old(bus).wf(),
            i.rs < 32 && i.rt < 32,
            i.opcode == 0x28 || i.opcode == 0x29 || i.opcode == 0x2B,
        ensures
            final(self).machine(final(bus)) == store_spec(old(self).machine(old(bus)), i),
            final(bus).wf(),
            final(bus).is_little_endian() == old(bus).is_little_endian(),
            *final(self) == *old(self),
    {
        let rt_val = self.registers.read(i.rt as usize);
        let addr = self.registers.read(i.rs as usize).wrapping_add(sign_extend16(i.imm));
        let op = i.opcode;
        if op == 0x2B {
            let _ = bus.write32_virt(addr, rt_val);
        } else if op == 0x28 {
            let _ = bus.write8_virt(addr, (rt_val % 0x100) as u8);
        } else {
            let _ = bus.write16(addr, (rt_val % 0x1_0000) as u16);
        }
    }

    fn execute_jtype(&mut self, bus: &mut MemoryBus, j: JType) -> (res: u32)
        requires
            old(bus).wf(),
        ensures
            (final(self).machine(final(bus)), res) == jtype_spec(old(self).machine(old(bus)), j),
            final(bus).wf(),
            final(bus).is_little_endian() == old(bus).is_little_endian(),
            final(self).cop0 == old(self).cop0,
            final(self).cop1 == old(self).cop1,
        decreases 0x1_0000_0000 - old(self).registers.special.pc, 2int,
    {
        let pc_next = self.registers.get_pc();
        let target = (pc_next & 0xF000_0000) | (j.target << 2);
        if j.opcode == 0x03 {
            self.registers.write(31, pc_next.wrapping_add(4));
        }
        self.run_delay_slot(bus);
        self.registers.special.pc = target;
        0
    }

    fn execute_special2(&mut self, s: Special2)
        requires
            s.rs < 32 && s.rt < 32 && s.rd < 32,
        ensures
            final(self).registers@ == special2_spec(
                Machine { regs: old(self).registers@, mem: Seq::empty() },
                s,
            ).regs,
            final(self).cop0 == old(self).cop0,
            final(self).cop1 == old(self).cop1,
    {
        let rs_val = self.registers.read(s.rs as usize);
        let rt_val = self.registers.read(s.rt as usize);
        let acc: u64 = self.registers.special.hi as u64 * 0x1_0000_0000
            + self.registers.special.lo as u64;
        let result: Option<u64> = if s.funct == 0x00 {
            Some(accumulate(acc, signed_product(rs_val, rt_val), Ghost(sx(rs_val) * sx(rt_val)), true))
        } else if s.funct == 0x01 {
            Some(accumulate(acc, unsigned_product(rs_val, rt_val), Ghost(rs_val * rt_val), true))
        } else if s.funct == 0x02 {
            let p = signed_product(rs_val, rt_val);
            let (_, low) = split_word(p);
            self.registers.write(s.rd as usize, low);
            Some(p)
        } else if s.funct == 0x04 {
            Some(accumulate(acc, signed_product(rs_val, rt_val), Ghost(sx(rs_val) * sx(rt_val)), false))
        } else if s.funct == 0x05 {
            Some(accumulate(acc, unsigned_product(rs_val, rt_val), Ghost(rs_val * rt_val), false))
        } else {
            None
        };
        if let Some(x) = result {
            let (h, l) = split_word(x);
            self.registers.special.hi = h;
            self.registers.special.lo = l;
        }
    }
}

/// The 64-bit accumulator plus (or minus) a product, modulo 2^64; `p` is the product
/// `x` reduced modulo 2^64.
fn accumulate(acc: u64, p: u64, x: Ghost<int>, add: bool) -> (r: u64)
    requires
        p == wrap64(x@),
    ensures
        r == if add {
            wrap64(acc + x@)
        } else {
            wrap64(acc - x@)
        },
{
    let ghost m = 0x1_0000_0000_0000_0000int;
    if add {
        proof {
            vstd::arithmetic::div_mod::lemma_add_mod_noop(acc as int, x@, m);
            vstd::arithmetic::div_mod::lemma_small_mod(acc as nat, m as nat);
        }
        acc.wrapping_add(p)
    } else {
        proof {
            vstd::arithmetic::div_mod::lemma_sub_mod_noop(acc as int, x@, m);
            vstd::arithmetic::div_mod::lemma_small_mod(acc as nat, m as nat);
        }
        acc.wrapping_sub(p)
    }
}

/// LB, LBU, LH, LHU: the loaded value, 0 when the read fails.
fn load_value(bus: &MemoryBus, op: u8, addr: u32) -> (r: u32)
    requires
        bus.wf(),
    ensures
        r == loaded_value(bus@, op, addr),
{
    if op == 0x20 {
        match bus.read8_virt(addr) {
            Ok(b) => if b >= 0x80 {
                b as u32 + 0xFFFF_FF00
            } else {
                b as u32
            },
            Err(_) => 0,
        }
    } else if op == 0x24 {
        match bus.read8_virt(addr) {
            Ok(b) => b as u32,
            Err(_) => 0,
        }
    } else if op == 0x21 {
        match bus.read16(addr) {
            Ok(h) => sign_extend16(h),
            Err(_) => 0,
        }
    } else {
        match bus.read16(addr) {
            Ok(h) => h as u32,
            Err(_) => 0,
        }
    }
}

} // verus!
