use aiz32mips_core::alu::{AluOp, ALU};

fn reg(rs: u32, rt: u32, shamt: u8, funct: u8) -> aiz32mips_core::alu::AluResult {
    ALU::execute(rs, rt, shamt, 0, 0, funct, false, 0x1111, 0x2222)
}

fn imm(rs: u32, imm: u16, opcode: u8) -> aiz32mips_core::alu::AluResult {
    ALU::execute(rs, 0, 0, imm, opcode, 0, true, 0, 0)
}

#[test]
fn immediate_forms() {
    assert_eq!(imm(5, 0xFFFF, 0x09).value, 4);
    assert_eq!(imm(0xF0F0, 0x0FF0, 0x0C).value, 0x00F0);
    assert_eq!(imm(0xF000, 0x000F, 0x0D).value, 0xF00F);
    assert_eq!(imm(0xFF, 0x0F, 0x0E).value, 0xF0);
    assert_eq!(imm(0xFFFF_FFFF, 0x0001, 0x0A).value, 1);
    assert_eq!(imm(0xFFFF_FFFF, 0x0001, 0x0B).value, 0);
    assert_eq!(imm(0, 0x1234, 0x0F).value, 0x1234_0000);
    assert_eq!(imm(0, 0, 0x3F).op, AluOp::Unhandled);
}

#[test]
fn register_arithmetic_wraps() {
    assert_eq!(reg(0xFFFF_FFFF, 1, 0, 0x21).value, 0);
    assert_eq!(reg(0, 1, 0, 0x23).value, 0xFFFF_FFFF);
    assert_eq!(reg(0b1100, 0b1010, 0, 0x27).value, !0b1110u32);
    assert_eq!(reg(0x8000_0000, 1, 0, 0x2A).value, 1);
    assert_eq!(reg(0x8000_0000, 1, 0, 0x2B).value, 0);
    assert_eq!(reg(7, 7, 0, 0x34).value, 1);
    assert_eq!(reg(7, 8, 0, 0x34).value, 0);
}

#[test]
fn shifts() {
    assert_eq!(reg(0, 1, 31, 0x00).value, 0x8000_0000);
    assert_eq!(reg(0, 0x8000_0000, 31, 0x02).value, 1);
    assert_eq!(reg(0, 0x8000_0000, 4, 0x03).value, 0xF800_0000);
    assert_eq!(reg(36, 1, 0, 0x04).value, 16);
    assert_eq!(reg(33, 0x80, 0, 0x06).value, 0x40);
    assert_eq!(reg(1, 0x8000_0000, 0, 0x07).value, 0xC000_0000);
}

#[test]
fn multiply_and_divide() {
    let r = reg(0xFFFF_FFFF, 2, 0, 0x18);
    assert_eq!((r.hi, r.lo), (Some(0xFFFF_FFFF), Some(0xFFFF_FFFE)));
    let r = reg(0xFFFF_FFFF, 2, 0, 0x19);
    assert_eq!((r.hi, r.lo), (Some(1), Some(0xFFFF_FFFE)));
    let r = reg((-7i32) as u32, 2, 0, 0x1A);
    assert_eq!((r.hi, r.lo), (Some((-1i32) as u32), Some((-3i32) as u32)));
    let r = reg(7, 2, 0, 0x1B);
    assert_eq!((r.hi, r.lo), (Some(1), Some(3)));
    let r = reg(7, 0, 0, 0x1A);
    assert_eq!((r.hi, r.lo), (None, None));
    let r = reg(0x8000_0000, 0xFFFF_FFFF, 0, 0x1A);
    assert_eq!((r.hi, r.lo), (Some(0), Some(0x8000_0000)));
}

#[test]
fn hi_lo_moves() {
    assert_eq!(reg(0, 0, 0, 0x10).value, 0x1111);
    assert_eq!(reg(0, 0, 0, 0x12).value, 0x2222);
    assert_eq!(reg(9, 0, 0, 0x11).hi, Some(9));
    assert_eq!(reg(9, 0, 0, 0x13).lo, Some(9));
}
