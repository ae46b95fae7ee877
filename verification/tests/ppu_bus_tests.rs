//! PPU-bus decoding: the buffered CHR and nametable reads and the palette.

use nes_core::cartridge::{Cartridge, Mirroring};
use nes_core::ppu_bus::PPUBus;

fn create_test_cartridge() -> Cartridge {
    Cartridge {
        prg_rom: vec![],
        chr_rom: vec![0x06],
        mapper: 0,
        screen_mirroring: Mirroring::Vertical,
    }
}

#[test]
fn test_read_data_chr_rom() {
    let cartridge = create_test_cartridge();
    let mut bus = PPUBus::new();
    bus.connect_cartridge(&cartridge);
    // Read twice to flush the internal buffer
    bus.read_data(0x0);
    assert_eq!(bus.read_data(0x0), 0x06);
}

#[test]
fn test_read_data_vram() {
    let mut bus = PPUBus::new();
    bus.write_to_vram(0x01, 0x05);
    // Read twice to flush the internal buffer
    bus.read_data(0x2001);
    assert_eq!(bus.read_data(0x2001), 0x05);
}

#[test]
fn test_palette_read_write() {
    let mut bus = PPUBus::new();
    bus.write_to_data(0x3f01, 0x2a);
    // Palette reads bypass the internal buffer.
    assert_eq!(bus.read_data(0x3f01), 0x2a);
}

#[test]
fn test_palette_mirrors() {
    // $3F10/$3F14/$3F18/$3F1C alias $3F00/$3F04/$3F08/$3F0C, both ways.
    let mut bus = PPUBus::new();
    bus.write_to_data(0x3f10, 0x11);
    assert_eq!(bus.read_data(0x3f00), 0x11);
    bus.write_to_data(0x3f04, 0x22);
    assert_eq!(bus.read_data(0x3f14), 0x22);
    bus.write_to_data(0x3f18, 0x33);
    assert_eq!(bus.read_data(0x3f08), 0x33);
    bus.write_to_data(0x3f0c, 0x44);
    assert_eq!(bus.read_data(0x3f1c), 0x44);
}

#[test]
fn test_chr_rom_not_writable() {
    let cartridge = create_test_cartridge();
    let mut bus = PPUBus::new();
    bus.connect_cartridge(&cartridge);
    bus.write_to_data(0x0000, 0x99);
    bus.read_data(0x0000);
    assert_eq!(bus.read_data(0x0000), 0x06);
}

#[test]
fn test_vertical_mirroring() {
    // Vertical: tables 0 and 2 share RAM, as do 1 and 3.
    let mut bus = PPUBus::new();
    bus.write_to_data(0x2005, 0xaa);
    bus.read_data(0x2805);
    assert_eq!(bus.read_data(0x2805), 0xaa);
}

#[test]
fn test_horizontal_mirroring() {
    // Horizontal: tables 0 and 1 share RAM, as do 2 and 3.
    let cartridge = Cartridge {
        prg_rom: vec![],
        chr_rom: vec![],
        mapper: 0,
        screen_mirroring: Mirroring::Horizontal,
    };
    let mut bus = PPUBus::new();
    bus.connect_cartridge(&cartridge);
    bus.write_to_data(0x2005, 0xbb);
    bus.read_data(0x2405);
    assert_eq!(bus.read_data(0x2405), 0xbb);
}
