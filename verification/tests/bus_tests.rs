//! CPU-bus address decoding: RAM with its mirrors, the PRG-ROM window and
//! its read-only behaviour.

use nes_core::cartridge::{Cartridge, Mirroring};
use nes_core::cpu_bus::CpuBus;

#[test]
fn cpu_bus_tests_test_ram_read_write() {
    let mut bus = CpuBus::new();
    bus.mem_write(0x0001, 0x01);
    assert_eq!(bus.mem_read(0x0001), 0x01);
    bus.mem_write_u16(0x0200, 0x01);
    assert_eq!(bus.mem_read_u16(0x0200), 0x01);
}

#[test]
fn cpu_bus_tests_test_prg_rom_read() {
    let mut bus = CpuBus::new();
    let cartridge = Cartridge {
        prg_rom: vec![0xd8, 0x00],
        chr_rom: vec![],
        mapper: 0,
        screen_mirroring: Mirroring::FourScreen,
    };
    bus.connect_cartridge(&cartridge);
    assert_eq!(bus.mem_read_u16(0x8000), 0xd8);
}

#[test]
fn bus_tests_test_ram_read_write() {
    let mut bus = CpuBus::new();
    bus.mem_write(0x0001, 0x01);
    assert_eq!(bus.mem_read(0x0001), 0x01);
    bus.mem_write_u16(0x0200, 0x01);
    assert_eq!(bus.mem_read_u16(0x0200), 0x01);
}

#[test]
fn bus_tests_test_prg_rom_read() {
    let mut bus = CpuBus::new();
    let cartridge = Cartridge {
        prg_rom: vec![0xd8, 0x00],
        chr_rom: vec![],
        mapper: 0,
        screen_mirroring: Mirroring::FourScreen,
    };
    bus.connect_cartridge(&cartridge);
    assert_eq!(bus.mem_read_u16(0x8000), 0xd8);
}

#[test]
fn bus_tests_test_prg_rom_not_writable() {
    let mut bus = CpuBus::new();
    bus.mem_write_u16(0x8000, 0x001);
    assert_eq!(bus.mem_read_u16(0x8000), 0);
}

#[test]
fn test_ram_mirrors() {
    // Any address below $2000 reaches the same cell as its fold to 2 KiB.
    let mut bus = CpuBus::new();
    bus.mem_write(0x0042, 0xab);
    assert_eq!(bus.mem_read(0x0842), 0xab);
    assert_eq!(bus.mem_read(0x1042), 0xab);
    assert_eq!(bus.mem_read(0x1842), 0xab);
    bus.mem_write(0x1fff, 0x77);
    assert_eq!(bus.mem_read(0x07ff), 0x77);
}

#[test]
fn test_prg_rom_16k_mirror() {
    // A single 16 KiB bank appears again in the upper half of the window.
    let mut bus = CpuBus::new();
    let mut prg = vec![0u8; 0x4000];
    prg[0] = 0xd8;
    prg[0x123] = 0x55;
    let cartridge = Cartridge {
        prg_rom: prg,
        chr_rom: vec![],
        mapper: 0,
        screen_mirroring: Mirroring::Vertical,
    };
    bus.connect_cartridge(&cartridge);
    assert_eq!(bus.mem_read(0xc000), bus.mem_read(0x8000));
    assert_eq!(bus.mem_read(0xc000), 0xd8);
    assert_eq!(bus.mem_read(0xc123), 0x55);
}

#[test]
fn test_apu_range_reads_zero() {
    let mut bus = CpuBus::new();
    bus.mem_write(0x4000, 0x12);
    assert_eq!(bus.mem_read(0x4000), 0);
    assert_eq!(bus.mem_read(0x4015), 0);
    assert_eq!(bus.mem_read(0x5000), 0);
}
