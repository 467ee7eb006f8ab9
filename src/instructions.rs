use vstd::prelude::*;

verus! {

/// A decoded instruction word, tagged by its format.
#[derive(Clone, Copy, Debug, PartialEq, Eq)]
pub enum Instruction {
    RType(RType),
    IType(IType),
    JType(JType),
    Cop0(Cop0Ins),
    Cop1(Cop1Ins),
    Special2(Special2),
    Special3(Special3),
    Invalid(u32),
}

/// Register format: `opcode:6 rs:5 rt:5 rd:5 shamt:5 funct:6`.
#[derive(Clone, Copy, Debug, PartialEq, Eq)]
pub struct RType {
    pub opcode: u8,
    pub rs: u8,
    pub rt: u8,
    pub rd: u8,
    pub shamt: u8,
    pub funct: u8,
}

/// Immediate format: `opcode:6 rs:5 rt:5 imm:16`.
#[derive(Clone, Copy, Debug, PartialEq, Eq)]
pub struct IType {
    pub opcode: u8,
    pub rs: u8,
    pub rt: u8,
    pub imm: u16,
}

/// Jump format: `opcode:6 target:26`.
#[derive(Clone, Copy, Debug, PartialEq, Eq)]
pub struct JType {
    pub opcode: u8,
    pub target: u32,
}

/// Coprocessor-0 format: `opcode:6 rs:5 rt:5 rd:5 .. sel:3`, with `funct` the low six bits.
#[derive(Clone, Copy, Debug, PartialEq, Eq)]
pub struct Cop0Ins {
    pub opcode: u8,
    pub rs: u8,
    pub rt: u8,
    pub rd: u8,
    pub sel: u8,
    pub funct: u8,
}

/// Coprocessor-1 format: `opcode:6 fmt:5 ft:5 fs:5 fd:5 funct:6`.
#[derive(Clone, Copy, Debug, PartialEq, Eq)]
pub struct Cop1Ins {
    pub opcode: u8,
    pub fmt: u8,
    pub ft: u8,
    pub fs: u8,
    pub fd: u8,
    pub funct: u8,
}

/// SPECIAL2 format, laid out as the register format.
#[derive(Clone, Copy, Debug, PartialEq, Eq)]
pub struct Special2 {
    pub opcode: u8,
    pub rs: u8,
    pub rt: u8,
    pub rd: u8,
    pub shamt: u8,
    pub funct: u8,
}

/// SPECIAL3 format: `opcode:6 rs:5 rt:5 rd:5 sa:5 funct:6`.
#[derive(Clone, Copy, Debug, PartialEq, Eq)]
pub struct Special3 {
    pub opcode: u8,
    pub rs: u8,
    pub rt: u8,
    pub rd: u8,
    pub sa: u8,
    pub funct: u8,
}

/// The top six bits of a word.
pub open spec fn op_bits(w: u32) -> u8 {
    ((w >> 26u32) & 0x3F) as u8
}

pub open spec fn rs_bits(w: u32) -> u8 {
    ((w >> 21u32) & 0x1F) as u8
}

pub open spec fn rt_bits(w: u32) -> u8 {
    ((w >> 16u32) & 0x1F) as u8
}

pub open spec fn rd_bits(w: u32) -> u8 {
    ((w >> 11u32) & 0x1F) as u8
}

pub open spec fn sa_bits(w: u32) -> u8 {
    ((w >> 6u32) & 0x1F) as u8
}

pub open spec fn funct_bits(w: u32) -> u8 {
    (w & 0x3F) as u8
}

/// The six-field layout shared by the register, SPECIAL2 and SPECIAL3 formats.
pub open spec fn pack6(op: u8, a: u8, b: u8, c: u8, d: u8, f: u8) -> u32 {
    ((op as u32) << 26u32) | ((a as u32) << 21u32) | ((b as u32) << 16u32) | ((c as u32) << 11u32)
        | ((d as u32) << 6u32) | (f as u32)
}

impl Instruction {
    /// The variant that a word decodes to, chosen by its top six bits.
    #[verifier::opaque]
    pub open spec fn from_word(w: u32) -> Instruction {
        let op = op_bits(w);
        if op == 0x00 {
            Instruction::RType(RType::from_word(w))
        } else if op == 0x10 {
            Instruction::Cop0(Cop0Ins::from_word(w))
        } else if op == 0x11 {
            Instruction::Cop1(Cop1Ins::from_word(w))
        } else if op == 0x1C {
            Instruction::Special2(Special2::from_word(w))
        } else if op == 0x1F {
            Instruction::Special3(Special3::from_word(w))
        } else if op == 0x02 || op == 0x03 {
            Instruction::JType(JType::from_word(w))
        } else {
            Instruction::IType(IType::from_word(w))
        }
    }

    /// The word that a variant encodes to.
    pub open spec fn word(self) -> u32 {
        match self {
            Instruction::RType(r) => r.word(),
            Instruction::IType(i) => i.word(),
            Instruction::JType(j) => j.word(),
            Instruction::Cop0(c) => c.word(),
            Instruction::Cop1(c) => c.word(),
            Instruction::Special2(s) => s.word(),
            Instruction::Special3(s) => s.word(),
            Instruction::Invalid(v) => v,
        }
    }

    /// Every register number and shift amount fits its five bits.
    pub open spec fn well_formed(self) -> bool {
        match self {
            Instruction::RType(r) => r.rs < 32 && r.rt < 32 && r.rd < 32 && r.shamt < 32,
            Instruction::IType(i) => i.rs < 32 && i.rt < 32,
            Instruction::Special2(s) => s.rs < 32 && s.rt < 32 && s.rd < 32,
            _ => true,
        }
    }

    pub fn decode(instr: u32) -> (r: Self)
        ensures
            r == Instruction::from_word(instr),
            r.well_formed(),
    {
        proof {
            lemma_decoded_well_formed(instr);
            reveal(Instruction::from_word);
        }
        let opcode = ((instr >> 26) & 0x3F) as u8;
        match opcode {
            0x00 => Instruction::RType(RType::decode(instr)),
            0x10 => Instruction::Cop0(Cop0Ins::decode(instr)),
            0x11 => Instruction::Cop1(Cop1Ins::decode(instr)),
            0x1C => Instruction::Special2(Special2::decode(instr)),
            0x1F => Instruction::Special3(Special3::decode(instr)),
            0x02 | 0x03 => Instruction::JType(JType::decode(instr)),
            _ => Instruction::IType(IType::decode(instr)),
        }
    }

    pub fn encode(&self) -> (r: u32)
        ensures
            r == self.word(),
    {
        match *self {
            Instruction::RType(r) => r.encode(),
            Instruction::IType(i) => i.encode(),
            Instruction::JType(j) => j.encode(),
            Instruction::Cop0(c) => c.encode(),
            Instruction::Cop1(c) => c.encode(),
            Instruction::Special2(s) => s.encode(),
            Instruction::Special3(s) => s.encode(),
            Instruction::Invalid(val) => val,
        }
    }
}

impl RType {
    pub open spec fn from_word(w: u32) -> RType {
        RType {
            opcode: op_bits(w),
            rs: rs_bits(w),
            rt: rt_bits(w),
            rd: rd_bits(w),
            shamt: sa_bits(w),
            funct: funct_bits(w),
        }
    }

    pub open spec fn word(self) -> u32 {
        pack6(self.opcode, self.rs, self.rt, self.rd, self.shamt, self.funct)
    }

    pub fn decode(instr: u32) -> (r: Self)
        ensures
            r == RType::from_word(instr),
    {
        RType {
            opcode: ((instr >> 26) & 0x3F) as u8,
            rs: ((instr >> 21) & 0x1F) as u8,
            rt: ((instr >> 16) & 0x1F) as u8,
            rd: ((instr >> 11) & 0x1F) as u8,
            shamt: ((instr >> 6) & 0x1F) as u8,
            funct: (instr & 0x3F) as u8,
        }
    }

    pub fn encode(&self) -> (r: u32)
        ensures
            r == self.word(),
    {
        ((self.opcode as u32) << 26) | ((self.rs as u32) << 21) | ((self.rt as u32) << 16) | ((
        self.rd as u32) << 11) | ((self.shamt as u32) << 6) | (self.funct as u32)
    }
}

impl IType {
    pub open spec fn from_word(w: u32) -> IType {
        IType { opcode: op_bits(w), rs: rs_bits(w), rt: rt_bits(w), imm: (w & 0xFFFF) as u16 }
    }

    pub open spec fn word(self) -> u32 {
        ((self.opcode as u32) << 26u32) | ((self.rs as u32) << 21u32) | ((self.rt as u32) << 16u32)
            | (self.imm as u32)
    }

    pub fn decode(instr: u32) -> (r: Self)
        ensures
            r == IType::from_word(instr),
    {
        IType {
            opcode: ((instr >> 26) & 0x3F) as u8,
            rs: ((instr >> 21) & 0x1F) as u8,
            rt: ((instr >> 16) & 0x1F) as u8,
            imm: (instr & 0xFFFF) as u16,
        }
    }

    pub fn encode(&self) -> (r: u32)
        ensures
            r == self.word(),
    {
        ((self.opcode as u32) << 26) | ((self.rs as u32) << 21) | ((self.rt as u32) << 16) | (
        self.imm as u32)
    }
}

impl JType {
    pub open spec fn from_word(w: u32) -> JType {
        JType { opcode: op_bits(w), target: w & 0x03FF_FFFF }
    }

    /// Only the low 26 bits of `target` are encoded.
    pub open spec fn word(self) -> u32 {
        ((self.opcode as u32) << 26u32) | (self.target & 0x03FF_FFFF)
    }

    pub fn decode(instr: u32) -> (r: Self)
        ensures
            r == JType::from_word(instr),
    {
        JType { opcode: ((instr >> 26) & 0x3F) as u8, target: instr & 0x03FF_FFFF }
    }

    pub fn encode(&self) -> (r: u32)
        ensures
            r == self.word(),
    {
        ((self.opcode as u32) << 26) | (self.target & 0x03FF_FFFF)
    }
}

impl Cop0Ins {
    /// `sel` and `funct` overlap in the low bits; bits 6..11 are not kept.
    pub open spec fn from_word(w: u32) -> Cop0Ins {
        Cop0Ins {
            opcode: op_bits(w),
            rs: rs_bits(w),
            rt: rt_bits(w),
            rd: rd_bits(w),
            sel: (w & 0x7) as u8,
            funct: funct_bits(w),
        }
    }

    /// `sel` is not encoded separately: the low bits come from `funct`.
    pub open spec fn word(self) -> u32 {
        ((self.opcode as u32) << 26u32) | ((self.rs as u32) << 21u32) | ((self.rt as u32) << 16u32)
            | ((self.rd as u32) << 11u32) | (self.funct as u32)
    }

    pub fn decode(instr: u32) -> (r: Self)
        ensures
            r == Cop0Ins::from_word(instr),
    {
        Cop0Ins {
            opcode: ((instr >> 26) & 0x3F) as u8,
            rs: ((instr >> 21) & 0x1F) as u8,
            rt: ((instr >> 16) & 0x1F) as u8,
            rd: ((instr >> 11) & 0x1F) as u8,
            sel: (instr & 0x7) as u8,
            funct: (instr & 0x3F) as u8,
        }
    }

    pub fn encode(&self) -> (r: u32)
        ensures
            r == self.word(),
    {
        ((self.opcode as u32) << 26) | ((self.rs as u32) << 21) | ((self.rt as u32) << 16) | ((
        self.rd as u32) << 11) | (self.funct as u32)
    }
}

impl Cop1Ins {
    pub open spec fn from_word(w: u32) -> Cop1Ins {
        Cop1Ins {
            opcode: op_bits(w),
            fmt: rs_bits(w),
            ft: rt_bits(w),
            fs: rd_bits(w),
            fd: sa_bits(w),
            funct: funct_bits(w),
        }
    }

    pub open spec fn word(self) -> u32 {
        pack6(self.opcode, self.fmt, self.ft, self.fs, self.fd, self.funct)
    }

    pub fn decode(instr: u32) -> (r: Self)
        ensures
            r == Cop1Ins::from_word(instr),
    {
        Cop1Ins {
            opcode: ((instr >> 26) & 0x3F) as u8,
            fmt: ((instr >> 21) & 0x1F) as u8,
            ft: ((instr >> 16) & 0x1F) as u8,
            fs: ((instr >> 11) & 0x1F) as u8,
            fd: ((instr >> 6) & 0x1F) as u8,
            funct: (instr & 0x3F) as u8,
        }
    }

    pub fn encode(&self) -> (r: u32)
        ensures
            r == self.word(),
    {
        ((self.opcode as u32) << 26) | ((self.fmt as u32) << 21) | ((self.ft as u32) << 16) | ((
        self.fs as u32) << 11) | ((self.fd as u32) << 6) | (self.funct as u32)
    }
}

impl Special2 {
    pub open spec fn from_word(w: u32) -> Special2 {
        Special2 {
            opcode: op_bits(w),
            rs: rs_bits(w),
            rt: rt_bits(w),
            rd: rd_bits(w),
            shamt: sa_bits(w),
            funct: funct_bits(w),
        }
    }

    pub open spec fn word(self) -> u32 {
        pack6(self.opcode, self.rs, self.rt, self.rd, self.shamt, self.funct)
    }

    pub fn decode(instr: u32) -> (r: Self)
        ensures
            r == Special2::from_word(instr),
    {
        Special2 {
            opcode: ((instr >> 26) & 0x3F) as u8,
            rs: ((instr >> 21) & 0x1F) as u8,
            rt: ((instr >> 16) & 0x1F) as u8,
            rd: ((instr >> 11) & 0x1F) as u8,
            shamt: ((instr >> 6) & 0x1F) as u8,
            funct: (instr & 0x3F) as u8,
        }
    }

    pub fn encode(&self) -> (r: u32)
        ensures
            r == self.word(),
    {
        ((self.opcode as u32) << 26) | ((self.rs as u32) << 21) | ((self.rt as u32) << 16) | ((
        self.rd as u32) << 11) | ((self.shamt as u32) << 6) | (self.funct as u32)
    }
}

impl Special3 {
    pub open spec fn from_word(w: u32) -> Special3 {
        Special3 {
            opcode: op_bits(w),
            rs: rs_bits(w),
            rt: rt_bits(w),
            rd: rd_bits(w),
            sa: sa_bits(w),
            funct: funct_bits(w),
        }
    }

    pub open spec fn word(self) -> u32 {
        pack6(self.opcode, self.rs, self.rt, self.rd, self.sa, self.funct)
    }

    pub fn decode(instr: u32) -> (r: Self)
        ensures
            r == Special3::from_word(instr),
    {
        Special3 {
            opcode: ((instr >> 26) & 0x3F) as u8,
            rs: ((instr >> 21) & 0x1F) as u8,
            rt: ((instr >> 16) & 0x1F) as u8,
            rd: ((instr >> 11) & 0x1F) as u8,
            sa: ((instr >> 6) & 0x1F) as u8,
            funct: (instr & 0x3F) as u8,
        }
    }

    pub fn encode(&self) -> (r: u32)
        ensures
            r == self.word(),
    {
        ((self.opcode as u32) << 26) | ((self.rs as u32) << 21) | ((self.rt as u32) << 16) | ((
        self.rd as u32) << 11) | ((self.sa as u32) << 6) | (self.funct as u32)
    }
}

/// Decoding yields five-bit register and shift fields.
pub proof fn lemma_decoded_well_formed(w: u32)
    ensures
        Instruction::from_word(w).well_formed(),
{
    reveal(Instruction::from_word);
    assert(forall|x: u32, k: u32| (x >> k) & 0x1F < 32) by (bit_vector);
    assert(rs_bits(w) < 32 && rt_bits(w) < 32 && rd_bits(w) < 32 && sa_bits(w) < 32);
}

proof fn lemma_pack6_fields(w: u32)
    ensures
        pack6(op_bits(w), rs_bits(w), rt_bits(w), rd_bits(w), sa_bits(w), funct_bits(w)) == w,
{
    assert(((((w >> 26u32) & 0x3F) as u8 as u32) << 26u32) | ((((w >> 21u32) & 0x1F) as u8 as u32)
        << 21u32) | ((((w >> 16u32) & 0x1F) as u8 as u32) << 16u32) | ((((w >> 11u32) & 0x1F) as u8
        as u32) << 11u32) | ((((w >> 6u32) & 0x1F) as u8 as u32) << 6u32) | ((w & 0x3F) as u8 as u32)
        == w) by (bit_vector);
}

/// Decoding then encoding gives the word back for every format whose fields cover the
/// whole word, that is every word but those of the coprocessor-0 format.
pub proof fn lemma_encode_decode(w: u32)
    requires
        op_bits(w) != 0x10,
    ensures
        Instruction::from_word(w).word() == w,
{
    reveal(Instruction::from_word);
    lemma_pack6_fields(w);
    assert(((((w >> 26u32) & 0x3F) as u8 as u32) << 26u32) | ((((w >> 21u32) & 0x1F) as u8 as u32)
        << 21u32) | ((((w >> 16u32) & 0x1F) as u8 as u32) << 16u32) | ((w & 0xFFFF) as u16 as u32)
        == w) by (bit_vector);
    assert(((((w >> 26u32) & 0x3F) as u8 as u32) << 26u32) | ((w & 0x03FF_FFFF) & 0x03FF_FFFF)
        == w) by (bit_vector);
}

/// An invalid word encodes to the raw word that it holds.
pub proof fn lemma_invalid_keeps_word(v: u32)
    ensures
        Instruction::Invalid(v).word() == v,
{
}

} // verus!
