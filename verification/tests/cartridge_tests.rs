//! The iNES loader: header decoding, payload slicing, and the rejected
//! images.

use nes_core::cartridge::{Cartridge, CartridgeError, Mirroring};

fn image(prg_pages: u8, chr_pages: u8, byte6: u8, byte7: u8) -> Vec<u8> {
    let prg = prg_pages as usize * 16384;
    let chr = chr_pages as usize * 8192;
    let trainer = if byte6 & 0b100 != 0 { 512 } else { 0 };
    let mut raw = vec![0u8; 16 + trainer + prg + chr];
    raw[0] = 0x4e;
    raw[1] = 0x45;
    raw[2] = 0x53;
    raw[3] = 0x1a;
    raw[4] = prg_pages;
    raw[5] = chr_pages;
    raw[6] = byte6;
    raw[7] = byte7;
    raw
}

#[test]
fn test_header_decoding() {
    // Mapper id from both nibbles, vertical mirroring from bit 0 of byte 6.
    let mut raw = image(1, 1, 0b0000_0001, 0b0011_0000);
    raw[16] = 0xaa;
    raw[16 + 16384] = 0xbb;
    let cartridge = Cartridge::new(&raw).unwrap();
    assert_eq!(cartridge.mapper, 0x30);
    assert_eq!(*cartridge.screen_mirroring(), Mirroring::Vertical);
    assert_eq!(cartridge.prg_rom.len(), 16384);
    assert_eq!(cartridge.chr_rom().len(), 8192);
    assert_eq!(cartridge.prg_rom[0], 0xaa);
    assert_eq!(cartridge.chr_rom[0], 0xbb);
}

#[test]
fn test_four_screen_wins() {
    let raw = image(1, 0, 0b0000_1001, 0);
    let cartridge = Cartridge::new(&raw).unwrap();
    assert_eq!(cartridge.screen_mirroring, Mirroring::FourScreen);
}

#[test]
fn test_horizontal_by_default() {
    let raw = image(1, 0, 0, 0);
    let cartridge = Cartridge::new(&raw).unwrap();
    assert_eq!(cartridge.screen_mirroring, Mirroring::Horizontal);
}

#[test]
fn test_trainer_is_skipped() {
    let mut raw = image(1, 0, 0b0000_0100, 0);
    raw[16 + 512] = 0xd8;
    let cartridge = Cartridge::new(&raw).unwrap();
    assert_eq!(cartridge.prg_rom[0], 0xd8);
}

#[test]
fn test_bad_tag_rejected() {
    let mut raw = image(1, 0, 0, 0);
    raw[0] = 0x4d;
    assert!(matches!(
        Cartridge::new(&raw),
        Err(CartridgeError::InvalidFormat)
    ));
}

#[test]
fn test_later_version_rejected() {
    let raw = image(1, 0, 0, 0b0000_1000);
    assert!(matches!(
        Cartridge::new(&raw),
        Err(CartridgeError::InvalidFormat)
    ));
}

#[test]
fn test_short_payload_rejected() {
    let mut raw = image(1, 0, 0, 0);
    raw.truncate(100);
    assert!(matches!(
        Cartridge::new(&raw),
        Err(CartridgeError::InvalidFormat)
    ));
}
