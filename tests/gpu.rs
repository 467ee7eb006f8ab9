use aiz32mips_core::devices::gpu::GpuMmio;
use aiz32mips_core::devices::vram::GpuVram;
use aiz32mips_core::memory::{Device, MemoryBus};

const GPU: u32 = 0x1F80_2000;
const VRAM: u32 = 0x1000_0000;

fn setup(w: u16, h: u16, pitch: u16) -> MemoryBus {
    let mut bus = MemoryBus::new(true);
    bus.add_device(Device::Vram(GpuVram::new(VRAM, 0x1000)));
    bus.add_device(Device::Gpu(GpuMmio::new(GPU)));
    bus.write16(GPU, w).unwrap();
    bus.write16(GPU + 0x02, h).unwrap();
    bus.write16(GPU + 0x04, pitch).unwrap();
    bus.write8(GPU + 0x06, 32).unwrap();
    bus.write32(GPU + 0x08, 0).unwrap();
    bus
}

fn param(bus: &mut MemoryBus, v: u16) {
    bus.write16(GPU + 0x12, v).unwrap();
}

fn param32(bus: &mut MemoryBus, v: u32) {
    param(bus, (v & 0xFFFF) as u16);
    param(bus, (v >> 16) as u16);
}

fn command(bus: &mut MemoryBus, c: u16) {
    bus.write16(GPU + 0x10, c).unwrap();
}

fn pixel(bus: &MemoryBus, pitch: u32, x: u32, y: u32) -> u32 {
    bus.read32(VRAM + (y * pitch + x) * 4).unwrap()
}

#[test]
fn clear_fills_framebuffer() {
    let mut bus = setup(4, 2, 4);
    param(&mut bus, 0x3344);
    param(&mut bus, 0x1122);
    command(&mut bus, 0x0001);
    for k in 0..32u32 {
        let expected = [0x44, 0x33, 0x22, 0x11][(k % 4) as usize];
        assert_eq!(bus.read8(VRAM + k).unwrap(), expected);
    }
    assert_eq!(bus.read8(VRAM + 32).unwrap(), 0);
}

#[test]
fn line_diagonal() {
    let mut bus = setup(4, 4, 4);
    param32(&mut bus, 0);
    command(&mut bus, 0x0001);
    for v in [0u16, 0, 3, 3] {
        param(&mut bus, v);
    }
    param32(&mut bus, 0xFFFF_FFFF);
    command(&mut bus, 0x0009);
    for y in 0..4 {
        for x in 0..4 {
            let expected = if x == y { 0xFFFF_FFFF } else { 0 };
            assert_eq!(pixel(&bus, 4, x, y), expected);
        }
    }
}

#[test]
fn line_shallow_reaches_end() {
    let mut bus = setup(8, 4, 8);
    for v in [0u16, 0, 7, 2] {
        param(&mut bus, v);
    }
    param32(&mut bus, 0x0102_0304);
    command(&mut bus, 0x0009);
    assert_eq!(pixel(&bus, 8, 0, 0), 0x0102_0304);
    assert_eq!(pixel(&bus, 8, 7, 2), 0x0102_0304);
    let lit: u32 = (0..4).map(|y| (0..8).filter(|&x| pixel(&bus, 8, x, y) != 0).count() as u32).sum();
    assert_eq!(lit, 8);
}

#[test]
fn fillrect_full_screen_after_clear() {
    let mut bus = setup(4, 3, 4);
    param32(&mut bus, 0xAABB_CCDD);
    command(&mut bus, 0x0001);
    for v in [0u16, 0, 4, 3] {
        param(&mut bus, v);
    }
    param32(&mut bus, 0x1234_5678);
    command(&mut bus, 0x0006);
    for y in 0..3 {
        for x in 0..4 {
            assert_eq!(pixel(&bus, 4, x, y), 0x1234_5678);
        }
    }
}

#[test]
fn fillrect_is_clipped() {
    let mut bus = setup(4, 4, 4);
    for v in [2u16, 3, 10, 10] {
        param(&mut bus, v);
    }
    param32(&mut bus, 0x7);
    command(&mut bus, 0x0006);
    assert_eq!(pixel(&bus, 4, 2, 3), 7);
    assert_eq!(pixel(&bus, 4, 3, 3), 7);
    assert_eq!(pixel(&bus, 4, 1, 3), 0);
    assert_eq!(pixel(&bus, 4, 2, 2), 0);
    assert_eq!(bus.read32(VRAM + 64).unwrap(), 0);
}

#[test]
fn rect_outline_draws_edges_only() {
    let mut bus = setup(4, 4, 4);
    for v in [0u16, 0, 4, 4] {
        param(&mut bus, v);
    }
    param32(&mut bus, 9);
    command(&mut bus, 0x0008);
    for y in 0..4 {
        for x in 0..4 {
            let edge = x == 0 || y == 0 || x == 3 || y == 3;
            assert_eq!(pixel(&bus, 4, x, y), if edge { 9 } else { 0 });
        }
    }
}

#[test]
fn gradient_x_ends_at_both_colours() {
    let mut bus = setup(3, 1, 3);
    param32(&mut bus, 0x0000_0000);
    param32(&mut bus, 0x0000_00C8);
    command(&mut bus, 0x0002);
    assert_eq!(pixel(&bus, 3, 0, 0), 0);
    assert_eq!(pixel(&bus, 3, 1, 0), 100);
    assert_eq!(pixel(&bus, 3, 2, 0), 200);
}

#[test]
fn gradient_y_and_xy() {
    let mut bus = setup(2, 2, 2);
    param32(&mut bus, 0x0000_0000);
    param32(&mut bus, 0x0A00_0000);
    command(&mut bus, 0x0007);
    assert_eq!(pixel(&bus, 2, 1, 0), 0);
    assert_eq!(pixel(&bus, 2, 1, 1), 0x0A00_0000);
    for c in [0u32, 10, 20, 30] {
        param32(&mut bus, c);
    }
    command(&mut bus, 0x000B);
    assert_eq!(pixel(&bus, 2, 0, 0), 0);
    assert_eq!(pixel(&bus, 2, 1, 0), 10);
    assert_eq!(pixel(&bus, 2, 0, 1), 20);
    assert_eq!(pixel(&bus, 2, 1, 1), 30);
}

#[test]
fn lerp_values() {
    assert_eq!(GpuMmio::lerp(0x10203040, 0x50607080, 0, 4), 0x10203040);
    assert_eq!(GpuMmio::lerp(0x10203040, 0x50607080, 4, 4), 0x50607080);
    assert_eq!(GpuMmio::lerp(0x00000000, 0xFF0000FF, 1, 2), 0x7F00007F);
    let big = usize::MAX;
    assert_eq!(GpuMmio::lerp(0x01020304, 0xFFFFFFFF, 0, big), 0x01020304);
    assert_eq!(GpuMmio::lerp(0x01020304, 0xFFFFFFFF, big, big), 0xFFFFFFFF);
}

#[test]
fn putchar_draws_glyph_bits() {
    let mut bus = setup(8, 2, 8);
    // Font at 0x800: glyph 1 is two rows, 0b1000_0001 and 0b0100_0000.
    bus.write32(GPU + 0x20, 0x800).unwrap();
    bus.write8(GPU + 0x24, 8).unwrap();
    bus.write8(GPU + 0x25, 2).unwrap();
    bus.write8(VRAM + 0x802, 0x81).unwrap();
    bus.write8(VRAM + 0x803, 0x40).unwrap();
    for v in [0u16, 0, 1] {
        param(&mut bus, v);
    }
    param32(&mut bus, 0xF);
    param32(&mut bus, 0xB);
    command(&mut bus, 0x0003);
    assert_eq!(pixel(&bus, 8, 0, 0), 0xF);
    assert_eq!(pixel(&bus, 8, 1, 0), 0xB);
    assert_eq!(pixel(&bus, 8, 7, 0), 0xF);
    assert_eq!(pixel(&bus, 8, 1, 1), 0xF);
    assert_eq!(pixel(&bus, 8, 0, 1), 0xB);
}

#[test]
fn puts_advances_by_font_width() {
    let mut bus = setup(8, 1, 8);
    bus.write32(GPU + 0x20, 0x800).unwrap();
    bus.write8(GPU + 0x24, 2).unwrap();
    bus.write8(GPU + 0x25, 1).unwrap();
    bus.write8(VRAM + 0x801, 0x80).unwrap();
    bus.write8(VRAM + 0x802, 0x40).unwrap();
    for v in [0u16, 0, 2] {
        param(&mut bus, v);
    }
    param32(&mut bus, 1);
    param32(&mut bus, 2);
    param(&mut bus, 1);
    param(&mut bus, 2);
    command(&mut bus, 0x0004);
    assert_eq!(pixel(&bus, 8, 0, 0), 1);
    assert_eq!(pixel(&bus, 8, 1, 0), 2);
    assert_eq!(pixel(&bus, 8, 2, 0), 2);
    assert_eq!(pixel(&bus, 8, 3, 0), 1);
    assert_eq!(pixel(&bus, 8, 4, 0), 0);
}

#[test]
fn blit_copies_rows() {
    let mut bus = setup(4, 4, 4);
    for k in 0..4u32 {
        bus.write32(VRAM + 0x400 + k * 4, 0x100 + k).unwrap();
    }
    param32(&mut bus, 0x400);
    for v in [2u16, 2, 1, 1] {
        param(&mut bus, v);
    }
    command(&mut bus, 0x000A);
    assert_eq!(pixel(&bus, 4, 1, 1), 0x100);
    assert_eq!(pixel(&bus, 4, 2, 1), 0x101);
    assert_eq!(pixel(&bus, 4, 1, 2), 0x102);
    assert_eq!(pixel(&bus, 4, 2, 2), 0x103);
    assert_eq!(pixel(&bus, 4, 0, 0), 0);
}

#[test]
fn registers_read_back_and_busy_clears() {
    let mut bus = setup(320, 200, 320);
    assert_eq!(bus.read16(GPU).unwrap(), 320);
    assert_eq!(bus.read16(GPU + 0x02).unwrap(), 200);
    assert_eq!(bus.read8(GPU + 0x06).unwrap(), 32);
    command(&mut bus, 0x0005);
    assert_eq!(bus.read32(GPU + 0x0C).unwrap() & 1, 0);
    assert_eq!(bus.read8(GPU + 0x40).unwrap(), 0);
}

#[test]
fn fifo_is_reset_after_each_command() {
    let mut bus = setup(2, 1, 2);
    param32(&mut bus, 0x55);
    param32(&mut bus, 0x66);
    command(&mut bus, 0x0001);
    command(&mut bus, 0x0001);
    assert_eq!(pixel(&bus, 2, 0, 0), 0);
}

#[test]
fn clear_at_8bpp_writes_low_byte() {
    let mut bus = setup(4, 1, 4);
    bus.write8(GPU + 0x06, 8).unwrap();
    param32(&mut bus, 0x1234_5678);
    command(&mut bus, 0x0001);
    assert_eq!(bus.read32(VRAM).unwrap(), 0x7878_7878);
    assert_eq!(bus.read8(VRAM + 4).unwrap(), 0);
}
