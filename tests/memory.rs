use aiz32mips_core::devices::ram::Ram;
use aiz32mips_core::devices::rom::Rom;
use aiz32mips_core::memory::{Device, MemoryBus, MemoryError};
use aiz32mips_core::registers::Registers;

fn bus() -> MemoryBus {
    let mut bus = MemoryBus::new(true);
    bus.add_device(Device::Ram(Ram::new(0x0000_0000, 0x1000)));
    bus.add_device(Device::Rom(Rom::new(0x1FC0_0000, vec![0xAA, 0xBB, 0xCC, 0xDD])));
    bus
}

#[test]
fn ram_word_round_trip() {
    let mut b = bus();
    b.write32(0x40, 0x1234_5678).unwrap();
    assert_eq!(b.read32(0x40).unwrap(), 0x1234_5678);
    assert_eq!(b.read8(0x40).unwrap(), 0x78);
    assert_eq!(b.read16(0x42).unwrap(), 0x1234);
}

#[test]
fn rom_rejects_stores() {
    let mut b = bus();
    assert!(matches!(b.write8(0x1FC0_0001, 0x00), Err(MemoryError::RomWrite(0x1FC0_0001))));
    assert_eq!(b.read8(0x1FC0_0001).unwrap(), 0xBB);
}

#[test]
fn unmapped_addresses_fail() {
    let mut b = bus();
    assert!(matches!(b.read8(0x5000_0000), Err(MemoryError::Unmapped(0x5000_0000))));
    assert!(matches!(b.write8(0x1000, 1), Err(MemoryError::Unmapped(0x1000))));
    assert!(matches!(b.read32(0x0FFE), Err(MemoryError::Unmapped(0x1000))));
}

#[test]
fn translation_segments() {
    let b = bus();
    assert_eq!(b.translate_vaddr(0x1234_5678).unwrap(), 0x1234_5678);
    assert_eq!(b.translate_vaddr(0x8000_0100).unwrap(), 0x0000_0100);
    assert_eq!(b.translate_vaddr(0x9FFF_FFFF).unwrap(), 0x1FFF_FFFF);
    assert_eq!(b.translate_vaddr(0xA000_0100).unwrap(), 0x0000_0100);
    assert_eq!(b.translate_vaddr(0xBFC0_0000).unwrap(), 0x1FC0_0000);
    assert!(matches!(b.translate_vaddr(0xC000_0000), Err(MemoryError::Unmapped(0xC000_0000))));
}

#[test]
fn virtual_access_goes_through_translation() {
    let mut b = bus();
    b.write16_virt(0x8000_0010, 0xBEEF).unwrap();
    assert_eq!(b.read16_virt(0xA000_0010).unwrap(), 0xBEEF);
    assert_eq!(b.read8_virt(0xBFC0_0003).unwrap(), 0xDD);
    assert!(b.write32_virt(0xE000_0000, 1).is_err());
}

#[test]
fn first_registered_device_wins() {
    let mut b = MemoryBus::new(true);
    b.add_device(Device::Rom(Rom::new(0x0, vec![1, 2])));
    b.add_device(Device::Ram(Ram::new(0x0, 0x10)));
    assert_eq!(b.read8(0x1).unwrap(), 2);
    assert!(b.write8(0x1, 9).is_err());
    assert_eq!(b.read8(0x2).unwrap(), 0);
}

#[test]
fn register_zero_stays_zero() {
    let mut r = Registers::new();
    r.write(0, 0xFFFF_FFFF);
    assert_eq!(r.read(0), 0);
    r.write(5, 7);
    assert_eq!(r.read(5), 7);
    r.write(40, 7);
    r.tick();
    assert_eq!(r.special.count, 1);
}

#[test]
fn device_level_access() {
    let mut d = Device::Ram(Ram::new(0x100, 4));
    let mut video = Vec::new();
    assert_eq!(d.range(), (0x100, 0x103));
    assert!(d.claims(0x103));
    assert!(!d.claims(0x104));
    d.write8(0x102, 0x5A, &mut video).unwrap();
    assert_eq!(d.read8(0x102).unwrap(), 0x5A);
    assert!(matches!(d.write8(0x104, 1, &mut video), Err(MemoryError::Unmapped(0x104))));
    let mut r = Device::Rom(Rom::new(0x0, vec![7]));
    assert!(matches!(r.write8(0x0, 1, &mut video), Err(MemoryError::RomWrite(0))));
    assert_eq!(r.read8(0x0).unwrap(), 7);
}
