use aiz32mips_core::cpu::CPU;
use aiz32mips_core::devices::gpu::GpuMmio;
use aiz32mips_core::devices::ram::Ram;
use aiz32mips_core::devices::rom::Rom;
use aiz32mips_core::devices::vram::GpuVram;
use aiz32mips_core::memory::{Device, MemoryBus};

const ROM_BASE: u32 = 0x1FC0_0000;

fn rom_bytes(words: &[u32]) -> Vec<u8> {
    let mut v = Vec::new();
    for w in words {
        v.extend_from_slice(&w.to_le_bytes());
    }
    v
}

fn machine(words: &[u32]) -> (CPU, MemoryBus) {
    let mut bus = MemoryBus::new(true);
    bus.add_device(Device::Ram(Ram::new(0x0000_0000, 0x0020_0000)));
    bus.add_device(Device::Rom(Rom::new(ROM_BASE, rom_bytes(words))));
    bus.add_device(Device::Vram(GpuVram::new(0x1000_0000, 0x1000)));
    bus.add_device(Device::Gpu(GpuMmio::new(0x1F80_2000)));
    (CPU::new(), bus)
}

#[test]
fn reset_state() {
    let cpu = CPU::new();
    assert_eq!(cpu.registers.get_pc(), 0xBFC0_0000);
    assert_eq!(cpu.registers.get_sp(), 0x800F_F000);
    assert_eq!(cpu.registers.get_gpc(), 0xBFC0_0000);
    assert_eq!(cpu.registers.read(31), 0xBFC0_0000);
    assert_eq!(cpu.registers.special.random, 31);
}

#[test]
fn addiu_then_taken_bne_runs_delay_slot() {
    let (mut cpu, mut bus) = machine(&[0x2402_0005, 0x1440_0001, 0x0000_0000]);
    cpu.step(&mut bus);
    assert_eq!(cpu.registers.read(2), 5);
    assert_eq!(cpu.registers.get_pc(), 0xBFC0_0004);
    cpu.step(&mut bus);
    // r2 != r0: taken; the NOP in the delay slot runs, then PC = delay slot + 4.
    assert_eq!(cpu.registers.get_pc(), 0xBFC0_000C);
    cpu.step(&mut bus);
    // Past the end of the ROM the fetch fails and PC stays.
    assert_eq!(cpu.registers.get_pc(), 0xBFC0_000C);
    assert_eq!(cpu.registers.read(2), 5);
}

#[test]
fn branch_not_taken_consumes_no_delay_slot() {
    // ADDIU r2,r0,5 ; BEQ r2,r0,+1 (not taken) ; ADDIU r3,r0,7
    let (mut cpu, mut bus) = machine(&[0x2402_0005, 0x1040_0001, 0x2403_0007]);
    cpu.step(&mut bus);
    cpu.step(&mut bus);
    assert_eq!(cpu.registers.get_pc(), 0xBFC0_0008);
    assert_eq!(cpu.registers.read(3), 0);
    cpu.step(&mut bus);
    assert_eq!(cpu.registers.read(3), 7);
    assert_eq!(cpu.registers.get_pc(), 0xBFC0_000C);
}

#[test]
fn jal_runs_delay_slot_and_links() {
    // JAL to 0xBFC00008 ; NOP ; ADDIU r8,r0,0x42
    let (mut cpu, mut bus) = machine(&[0x0FF0_0002, 0x0000_0000, 0x2408_0042]);
    cpu.step(&mut bus);
    assert_eq!(cpu.registers.get_pc(), 0xBFC0_0008);
    assert_eq!(cpu.registers.read(31), 0xBFC0_0008);
    cpu.step(&mut bus);
    assert_eq!(cpu.registers.read(8), 0x42);
    assert_eq!(cpu.registers.get_pc(), 0xBFC0_000C);
}

#[test]
fn store_word_then_load_word() {
    // LUI r1,0xDEAD ; ORI r1,r1,0xBEEF ; SW r1,0x100(r0) ; LW r2,0x100(r0)
    let (mut cpu, mut bus) = machine(&[0x3C01_DEAD, 0x3421_BEEF, 0xAC01_0100, 0x8C02_0100]);
    for _ in 0..4 {
        cpu.step(&mut bus);
    }
    assert_eq!(cpu.registers.read(1), 0xDEAD_BEEF);
    assert_eq!(cpu.registers.read(2), 0xDEAD_BEEF);
    assert_eq!(bus.read8(0x100).unwrap(), 0xEF);
    assert_eq!(bus.read8(0x101).unwrap(), 0xBE);
    assert_eq!(bus.read8(0x102).unwrap(), 0xAD);
    assert_eq!(bus.read8(0x103).unwrap(), 0xDE);
}

#[test]
fn mult_then_mfhi_mflo() {
    // LUI r1,1 ; LUI r2,1 ; MULT r1,r2 ; MFHI r3 ; MFLO r4
    let (mut cpu, mut bus) =
        machine(&[0x3C01_0001, 0x3C02_0001, 0x0022_0018, 0x0000_1810, 0x0000_2012]);
    for _ in 0..5 {
        cpu.step(&mut bus);
    }
    assert_eq!(cpu.registers.read(3), 1);
    assert_eq!(cpu.registers.read(4), 0);
}

#[test]
fn write_to_register_zero_is_ignored() {
    // ADDIU r0,r0,9
    let (mut cpu, mut bus) = machine(&[0x2400_0009]);
    cpu.step(&mut bus);
    assert_eq!(cpu.registers.read(0), 0);
}

#[test]
fn loads_sign_and_zero_extend() {
    // ADDIU r1,r0,-1 ; SB r1,0x10(r0) ; LB r2,0x10(r0) ; LBU r3,0x10(r0)
    let (mut cpu, mut bus) = machine(&[0x2401_FFFF, 0xA001_0010, 0x8002_0010, 0x9003_0010]);
    for _ in 0..4 {
        cpu.step(&mut bus);
    }
    assert_eq!(cpu.registers.read(1), 0xFFFF_FFFF);
    assert_eq!(cpu.registers.read(2), 0xFFFF_FFFF);
    assert_eq!(cpu.registers.read(3), 0xFF);
}

#[test]
fn failed_load_word_yields_zero() {
    // ADDIU r2,r0,3 ; LW r2,-4(r0): 0xFFFFFFFC is unmapped, so r2 becomes 0
    let (mut cpu, mut bus) = machine(&[0x2402_0003, 0x8C02_FFFC]);
    cpu.step(&mut bus);
    assert_eq!(cpu.registers.read(2), 3);
    cpu.step(&mut bus);
    assert_eq!(cpu.registers.read(2), 0);
    assert_eq!(cpu.registers.get_pc(), 0xBFC0_0008);
}

#[test]
fn store_to_rom_is_dropped() {
    // LUI r1,0xBFC0 ; ADDIU r2,r0,0x55 ; SB r2,0(r1)
    let (mut cpu, mut bus) = machine(&[0x3C01_BFC0, 0x2402_0055, 0xA022_0000]);
    for _ in 0..3 {
        cpu.step(&mut bus);
    }
    assert_eq!(bus.read8(ROM_BASE).unwrap(), 0xC0);
}

#[test]
fn jr_jumps_after_delay_slot() {
    // LUI r5,0xBFC0 ; ORI r5,r5,0x10 ; JR r5 ; ADDIU r6,r0,1 ; ADDIU r7,r0,2 (skipped) ; ...
    let (mut cpu, mut bus) = machine(&[
        0x3C05_BFC0,
        0x34A5_0014,
        0x00A0_0008,
        0x2406_0001,
        0x2407_0002,
        0x2409_0003,
    ]);
    for _ in 0..3 {
        cpu.step(&mut bus);
    }
    assert_eq!(cpu.registers.read(6), 1);
    assert_eq!(cpu.registers.get_pc(), 0xBFC0_0014);
    cpu.step(&mut bus);
    assert_eq!(cpu.registers.read(7), 0);
    assert_eq!(cpu.registers.read(9), 3);
}

#[test]
fn madd_accumulates_into_hi_lo() {
    // ADDIU r1,r0,-2 ; ADDIU r2,r0,3 ; MADD r1,r2 (HI:LO = 0 + -6)
    let (mut cpu, mut bus) = machine(&[0x2401_FFFE, 0x2402_0003, 0x7022_0000]);
    for _ in 0..3 {
        cpu.step(&mut bus);
    }
    assert_eq!(cpu.registers.special.hi, 0xFFFF_FFFF);
    assert_eq!(cpu.registers.special.lo, 0xFFFF_FFFA);
}

#[test]
fn bltzal_links_after_delay_slot() {
    // ADDIU r1,r0,-1 ; BLTZAL r1,+2 ; NOP ; ...
    let (mut cpu, mut bus) =
        machine(&[0x2401_FFFF, 0x0430_0002, 0x0000_0000, 0x0000_0000, 0x0000_0000]);
    cpu.step(&mut bus);
    cpu.step(&mut bus);
    // PC after the delay slot is 0xBFC0000C: the link is 4 past it, the target 8 past it.
    assert_eq!(cpu.registers.read(31), 0xBFC0_0010);
    assert_eq!(cpu.registers.get_pc(), 0xBFC0_0014);
}
