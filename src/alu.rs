use vstd::prelude::*;

verus! {

/// The class of operation that the ALU performed.
#[derive(Debug, Clone, Copy, PartialEq, Eq)]
pub enum AluOp {
    Add,
    Sub,
    And,
    Or,
    Xor,
    Nor,
    Slt,
    Sltu,
    Sll,
    Srl,
    Sra,
    Mult,
    Multu,
    Div,
    Divu,
    Mfhi,
    Mflo,
    Mthi,
    Mtlo,
    Lui,
    Teq,
    Unhandled,
}

/// What the ALU produced: a value, new HI and LO where the operation writes them, and the
/// operation's class. `overflow` is always false: no operation here traps.
#[derive(Debug, Clone, Copy)]
pub struct AluResult {
    pub value: u32,
    pub hi: Option<u32>,
    pub lo: Option<u32>,
    pub overflow: bool,
    pub op: AluOp,
}

/// The arithmetic and logic unit, a pure function of its operands.
pub struct ALU;

/// A 32-bit word read as a two's-complement integer.
pub open spec fn sx(x: u32) -> int {
    if x >= 0x8000_0000 {
        x - 0x1_0000_0000
    } else {
        x as int
    }
}

/// An integer reduced modulo 2^32.
pub open spec fn wrap32(x: int) -> u32 {
    (x % 0x1_0000_0000) as u32
}

/// An integer reduced modulo 2^64.
pub open spec fn wrap64(x: int) -> u64 {
    (x % 0x1_0000_0000_0000_0000) as u64
}

/// The upper half of a 64-bit word.
pub open spec fn hi_word(x: u64) -> u32 {
    (x / 0x1_0000_0000) as u32
}

/// The lower half of a 64-bit word.
pub open spec fn lo_word(x: u64) -> u32 {
    (x % 0x1_0000_0000) as u32
}

/// A 16-bit immediate sign-extended to 32 bits.
pub open spec fn sext16(imm: u16) -> u32 {
    if imm >= 0x8000 {
        (imm + 0xFFFF_0000) as u32
    } else {
        imm as u32
    }
}

pub open spec fn abs(x: int) -> int {
    if x < 0 {
        -x
    } else {
        x
    }
}

/// Signed division rounding toward zero.
pub open spec fn trunc_div(a: int, b: int) -> int {
    if (a < 0) != (b < 0) {
        -(abs(a) / abs(b))
    } else {
        abs(a) / abs(b)
    }
}

/// The remainder of `trunc_div`: it takes the sign of the dividend.
pub open spec fn trunc_rem(a: int, b: int) -> int {
    if a < 0 {
        -(abs(a) % abs(b))
    } else {
        abs(a) % abs(b)
    }
}

pub open spec fn alu_out(value: u32, hi: Option<u32>, lo: Option<u32>, op: AluOp) -> AluResult {
    AluResult { value, hi, lo, overflow: false, op }
}

pub open spec fn flag(b: bool) -> u32 {
    if b {
        1
    } else {
        0
    }
}

/// The ALU's result for each opcode (immediate forms) or funct (register forms).
pub open spec fn alu_spec(
    rs: u32,
    rt: u32,
    shamt: u8,
    imm: u16,
    opcode: u8,
    funct: u8,
    immediate: bool,
    hi: u32,
    lo: u32,
) -> AluResult {
    if immediate {
        alu_immediate_spec(rs, imm, opcode)
    } else {
        alu_register_spec(rs, rt, shamt, funct, hi, lo)
    }
}

/// The immediate forms, selected by opcode.
pub open spec fn alu_immediate_spec(rs: u32, imm: u16, opcode: u8) -> AluResult {
    let none = Option::<u32>::None;
    if opcode == 0x08 || opcode == 0x09 {
        alu_out(wrap32(rs + sext16(imm)), none, none, AluOp::Add)
    } else if opcode == 0x0C {
        alu_out(rs & (imm as u32), none, none, AluOp::And)
    } else if opcode == 0x0D {
        alu_out(rs | (imm as u32), none, none, AluOp::Or)
    } else if opcode == 0x0E {
        alu_out(rs ^ (imm as u32), none, none, AluOp::Xor)
    } else if opcode == 0x0A {
        alu_out(flag(sx(rs) < sx(sext16(imm))), none, none, AluOp::Slt)
    } else if opcode == 0x0B {
        alu_out(flag(rs < imm as u32), none, none, AluOp::Sltu)
    } else if opcode == 0x0F {
        alu_out(((imm as u32) * 0x1_0000) as u32, none, none, AluOp::Lui)
    } else {
        alu_out(0, none, none, AluOp::Unhandled)
    }
}

/// The register forms, selected by funct.
pub open spec fn alu_register_spec(rs: u32, rt: u32, shamt: u8, funct: u8, hi: u32, lo: u32) -> AluResult {
    let none = Option::<u32>::None;
    if funct == 0x20 || funct == 0x21 {
        alu_out(wrap32(rs + rt), none, none, AluOp::Add)
    } else if funct == 0x22 || funct == 0x23 {
        alu_out(wrap32(rs - rt), none, none, AluOp::Sub)
    } else if funct == 0x24 {
        alu_out(rs & rt, none, none, AluOp::And)
    } else if funct == 0x25 {
        alu_out(rs | rt, none, none, AluOp::Or)
    } else if funct == 0x26 {
        alu_out(rs ^ rt, none, none, AluOp::Xor)
    } else if funct == 0x27 {
        alu_out(!(rs | rt), none, none, AluOp::Nor)
    } else if funct == 0x2A {
        alu_out(flag(sx(rs) < sx(rt)), none, none, AluOp::Slt)
    } else if funct == 0x2B {
        alu_out(flag(rs < rt), none, none, AluOp::Sltu)
    } else if funct == 0x34 {
        alu_out(flag(rs == rt), none, none, AluOp::Teq)
    } else if funct == 0x00 {
        alu_out(rt << (shamt as u32), none, none, AluOp::Sll)
    } else if funct == 0x02 {
        alu_out(rt >> (shamt as u32), none, none, AluOp::Srl)
    } else if funct == 0x03 {
        alu_out(sra(rt, shamt as u32), none, none, AluOp::Sra)
    } else if funct == 0x04 {
        alu_out(rt << (rs & 0x1F), none, none, AluOp::Sll)
    } else if funct == 0x06 {
        alu_out(rt >> (rs & 0x1F), none, none, AluOp::Srl)
    } else if funct == 0x07 {
        alu_out(sra(rt, rs & 0x1F), none, none, AluOp::Sra)
    } else if funct == 0x18 {
        let p = wrap64(sx(rs) * sx(rt));
        alu_out(0, Some(hi_word(p)), Some(lo_word(p)), AluOp::Mult)
    } else if funct == 0x19 {
        let p = wrap64(rs * rt);
        alu_out(0, Some(hi_word(p)), Some(lo_word(p)), AluOp::Multu)
    } else if funct == 0x1A {
        if rt != 0 {
            alu_out(
                0,
                Some(wrap32(trunc_rem(sx(rs), sx(rt)))),
                Some(wrap32(trunc_div(sx(rs), sx(rt)))),
                AluOp::Div,
            )
        } else {
            alu_out(0, none, none, AluOp::Div)
        }
    } else if funct == 0x1B {
        if rt != 0 {
            alu_out(0, Some((rs % rt) as u32), Some((rs / rt) as u32), AluOp::Divu)
        } else {
            alu_out(0, none, none, AluOp::Divu)
        }
    } else if funct == 0x10 {
        alu_out(hi, none, none, AluOp::Mfhi)
    } else if funct == 0x12 {
        alu_out(lo, none, none, AluOp::Mflo)
    } else if funct == 0x11 {
        alu_out(0, Some(rs), none, AluOp::Mthi)
    } else if funct == 0x13 {
        alu_out(0, none, Some(rs), AluOp::Mtlo)
    } else {
        alu_out(0, none, none, AluOp::Unhandled)
    }
}

/// Arithmetic right shift: the vacated high bits copy the sign bit.
pub open spec fn sra(x: u32, s: u32) -> u32 {
    if x >= 0x8000_0000 {
        !((!x) >> s)
    } else {
        x >> s
    }
}

/// The low five bits of a word, a shift amount.
fn low5(x: u32) -> (r: u32)
    ensures
        r == x & 0x1F,
        r < 32,
{
    let r = x & 0x1F;
    assert(x & 0x1F < 32) by (bit_vector);
    r
}

pub fn shift_right_arith(x: u32, s: u32) -> (r: u32)
    requires
        s < 32,
    ensures
        r == sra(x, s),
{
    if x >= 0x8000_0000 {
        !((!x) >> s)
    } else {
        x >> s
    }
}

/// Sign-extends a 16-bit immediate.
pub fn sign_extend16(imm: u16) -> (r: u32)
    ensures
        r == sext16(imm),
{
    if imm >= 0x8000 {
        imm as u32 + 0xFFFF_0000
    } else {
        imm as u32
    }
}

/// Two's-complement less-than on 32-bit words.
pub fn signed_less(a: u32, b: u32) -> (r: bool)
    ensures
        r == (sx(a) < sx(b)),
{
    let a_neg = a >= 0x8000_0000;
    let b_neg = b >= 0x8000_0000;
    if a_neg != b_neg {
        a_neg
    } else {
        a < b
    }
}

/// The magnitude of a word read as a two's-complement integer.
fn magnitude(a: u32) -> (r: u32)
    ensures
        r as int == abs(sx(a)),
{
    if a >= 0x8000_0000 {
        0u32.wrapping_sub(a)
    } else {
        a
    }
}

/// The 64-bit two's-complement product of two words read as signed integers.
pub fn signed_product(a: u32, b: u32) -> (r: u64)
    ensures
        r == wrap64(sx(a) * sx(b)),
{
    let ma = magnitude(a) as u64;
    let mb = magnitude(b) as u64;
    assert(ma * mb <= 0x8000_0000u64 * 0x8000_0000u64) by (nonlinear_arith)
        requires
            ma <= 0x8000_0000,
            mb <= 0x8000_0000,
    ;
    let m = ma * mb;
    let neg = (a >= 0x8000_0000) != (b >= 0x8000_0000);
    proof {
        let x = sx(a);
        let y = sx(b);
        if x < 0 && y < 0 {
            assert(x * y == (-x) * (-y)) by (nonlinear_arith);
        } else if x < 0 {
            assert(x * y == -((-x) * y)) by (nonlinear_arith);
        } else if y < 0 {
            assert(x * y == -(x * (-y))) by (nonlinear_arith);
        }
    }
    if neg {
        0u64.wrapping_sub(m)
    } else {
        m
    }
}

/// The 64-bit product of two words read as unsigned integers.
pub fn unsigned_product(a: u32, b: u32) -> (r: u64)
    ensures
        r == wrap64(a * b),
{
    assert((a as u64) * (b as u64) <= 0xFFFF_FFFFu64 * 0xFFFF_FFFFu64) by (nonlinear_arith)
        requires
            a <= 0xFFFF_FFFFu32,
            b <= 0xFFFF_FFFFu32,
    ;
    (a as u64) * (b as u64)
}

/// The two halves of a 64-bit word, upper first.
pub fn split_word(x: u64) -> (r: (u32, u32))
    ensures
        r.0 == hi_word(x),
        r.1 == lo_word(x),
{
    ((x / 0x1_0000_0000) as u32, (x % 0x1_0000_0000) as u32)
}

/// Signed quotient and remainder, rounding toward zero; `b` is not zero.
fn signed_divide(a: u32, b: u32) -> (r: (u32, u32))
    requires
        b != 0,
    ensures
        r.0 == wrap32(trunc_div(sx(a), sx(b))),
        r.1 == wrap32(trunc_rem(sx(a), sx(b))),
{
    let ma = magnitude(a);
    let mb = magnitude(b);
    let q = ma / mb;
    let m = ma % mb;
    let quot = if (a >= 0x8000_0000) != (b >= 0x8000_0000) {
        0u32.wrapping_sub(q)
    } else {
        q
    };
    let rem = if a >= 0x8000_0000 {
        0u32.wrapping_sub(m)
    } else {
        m
    };
    (quot, rem)
}

impl ALU {
    pub fn new() -> (r: Self) {
        ALU
    }

    /// One ALU operation. Immediate forms are selected by `opcode`, register forms by
    /// `funct`; an unknown selector yields 0 and no HI/LO update.
    pub fn execute(
        rs_val: u32,
        rt_val: u32,
        shamt: u8,
        imm: u16,
        opcode: u8,
        funct: u8,
        inmediate: bool,
        hi: u32,
        lo: u32,
    ) -> (r: AluResult)
        requires
            shamt < 32,
        ensures
            r == alu_spec(rs_val, rt_val, shamt, imm, opcode, funct, inmediate, hi, lo),
    {
        if inmediate {
            execute_immediate(rs_val, imm, opcode)
        } else {
            execute_register(rs_val, rt_val, shamt, funct, hi, lo)
        }
    }
}

fn out(value: u32, hi: Option<u32>, lo: Option<u32>, op: AluOp) -> (r: AluResult)
    ensures
        r == alu_out(value, hi, lo, op),
{
    AluResult { value, hi, lo, overflow: false, op }
}

fn execute_immediate(rs_val: u32, imm: u16, opcode: u8) -> (r: AluResult)
    ensures
        r == alu_immediate_spec(rs_val, imm, opcode),
{
    let none = Option::<u32>::None;
    let imm_se = sign_extend16(imm);
    match opcode {
        0x08 | 0x09 => out(rs_val.wrapping_add(imm_se), none, none, AluOp::Add),
        0x0C => out(rs_val & (imm as u32), none, none, AluOp::And),
        0x0D => out(rs_val | (imm as u32), none, none, AluOp::Or),
        0x0E => out(rs_val ^ (imm as u32), none, none, AluOp::Xor),
        0x0A => out(
            if signed_less(rs_val, imm_se) {
                1
            } else {
                0
            },
            none,
            none,
            AluOp::Slt,
        ),
        0x0B => out(
            if rs_val < (imm as u32) {
                1
            } else {
                0
            },
            none,
            none,
            AluOp::Sltu,
        ),
        0x0F => out((imm as u32) * 0x1_0000, none, none, AluOp::Lui),
        _ => out(0, none, none, AluOp::Unhandled),
    }
}

fn execute_register(rs_val: u32, rt_val: u32, shamt: u8, funct: u8, hi: u32, lo: u32) -> (r: AluResult)
    requires
        shamt < 32,
    ensures
        r == alu_register_spec(rs_val, rt_val, shamt, funct, hi, lo),
{
    let none = Option::<u32>::None;
    match funct {
        0x20 | 0x21 => out(rs_val.wrapping_add(rt_val), none, none, AluOp::Add),
        0x22 | 0x23 => out(rs_val.wrapping_sub(rt_val), none, none, AluOp::Sub),
        0x24 => out(rs_val & rt_val, none, none, AluOp::And),
        0x25 => out(rs_val | rt_val, none, none, AluOp::Or),
        0x26 => out(rs_val ^ rt_val, none, none, AluOp::Xor),
        0x27 => out(!(rs_val | rt_val), none, none, AluOp::Nor),
        0x2A => out(
            if signed_less(rs_val, rt_val) {
                1
            } else {
                0
            },
            none,
            none,
            AluOp::Slt,
        ),
        0x2B => out(
            if rs_val < rt_val {
                1
            } else {
                0
            },
            none,
            none,
            AluOp::Sltu,
        ),
        0x34 => out(
            if rs_val == rt_val {
                1
            } else {
                0
            },
            none,
            none,
            AluOp::Teq,
        ),
        0x00 => out(rt_val << (shamt as u32), none, none, AluOp::Sll),
        0x02 => out(rt_val >> (shamt as u32), none, none, AluOp::Srl),
        0x03 => out(shift_right_arith(rt_val, shamt as u32), none, none, AluOp::Sra),
        0x04 => out(rt_val << low5(rs_val), none, none, AluOp::Sll),
        0x06 => out(rt_val >> low5(rs_val), none, none, AluOp::Srl),
        0x07 => out(shift_right_arith(rt_val, low5(rs_val)), none, none, AluOp::Sra),
        0x18 => {
            let (h, l) = split_word(signed_product(rs_val, rt_val));
            out(0, Some(h), Some(l), AluOp::Mult)
        },
        0x19 => {
            let (h, l) = split_word(unsigned_product(rs_val, rt_val));
            out(0, Some(h), Some(l), AluOp::Multu)
        },
        0x1A => {
            if rt_val != 0 {
                let (q, m) = signed_divide(rs_val, rt_val);
                out(0, Some(m), Some(q), AluOp::Div)
            } else {
                out(0, none, none, AluOp::Div)
            }
        },
        0x1B => {
            if rt_val != 0 {
                out(0, Some(rs_val % rt_val), Some(rs_val / rt_val), AluOp::Divu)
            } else {
                out(0, none, none, AluOp::Divu)
            }
        },
        0x10 => out(hi, none, none, AluOp::Mfhi),
        0x12 => out(lo, none, none, AluOp::Mflo),
        0x11 => out(0, Some(rs_val), none, AluOp::Mthi),
        0x13 => out(0, none, Some(rs_val), AluOp::Mtlo),
        _ => out(0, none, none, AluOp::Unhandled),
    }
}

} // verus!
