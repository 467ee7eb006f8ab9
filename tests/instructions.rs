use aiz32mips_core::instructions::{Instruction, IType, JType, RType};

#[test]
fn decode_picks_format_by_opcode() {
    assert!(matches!(Instruction::decode(0x0022_0018), Instruction::RType(_)));
    assert!(matches!(Instruction::decode(0x0C00_0002), Instruction::JType(_)));
    assert!(matches!(Instruction::decode(0x4000_0000), Instruction::Cop0(_)));
    assert!(matches!(Instruction::decode(0x4400_0000), Instruction::Cop1(_)));
    assert!(matches!(Instruction::decode(0x7022_0000), Instruction::Special2(_)));
    assert!(matches!(Instruction::decode(0x7C00_0000), Instruction::Special3(_)));
    assert!(matches!(Instruction::decode(0x2402_0005), Instruction::IType(_)));
}

#[test]
fn decode_fields() {
    let i = IType::decode(0x2402_0005);
    assert_eq!((i.opcode, i.rs, i.rt, i.imm), (0x09, 0, 2, 5));
    let r = RType::decode(0x0022_0018);
    assert_eq!((r.opcode, r.rs, r.rt, r.rd, r.shamt, r.funct), (0, 1, 2, 0, 0, 0x18));
    let j = JType::decode(0x0FF0_0002);
    assert_eq!((j.opcode, j.target), (0x03, 0x03F0_0002));
}

#[test]
fn encode_decode_round_trip() {
    for w in [0x0022_0018u32, 0x2402_0005, 0x0FF0_0002, 0x4489_ABCD, 0x7022_0000, 0x7FFF_FFFF, 0xFFFF_FFFF, 0] {
        assert_eq!(Instruction::decode(w).encode(), w);
    }
}

#[test]
fn cop0_encoding_drops_unkept_bits() {
    let w = 0x4000_07C1u32;
    assert_eq!(Instruction::decode(w).encode(), 0x4000_0001);
}

#[test]
fn invalid_keeps_raw_word() {
    assert_eq!(Instruction::Invalid(0x1234_5678).encode(), 0x1234_5678);
}
