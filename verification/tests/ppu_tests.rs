//! The PPU register interface: the ADDR/SCROLL latch protocol, the buffered
//! `$2007` reads, OAM and DMA, and vblank signalling.

use nes_core::cartridge::{Cartridge, Mirroring};
use nes_core::ppu::Ppu;

fn ppu_with_chr(chr: Vec<u8>) -> Ppu {
    let cartridge = Cartridge {
        prg_rom: vec![],
        chr_rom: chr,
        mapper: 0,
        screen_mirroring: Mirroring::Vertical,
    };
    let mut ppu = Ppu::new();
    ppu.connect_cartridge(&cartridge);
    ppu
}

#[test]
fn test_addr_latch_and_buffered_read() {
    // Write $20 $00 to ADDR, then read DATA twice: the first read returns
    // the stale buffer, the second the byte at $2000 in VRAM.
    let mut ppu = ppu_with_chr(vec![0; 8192]);
    ppu.bus.write_to_vram(0x0000, 0x42);
    ppu.write_to_ppu_addr(0x20);
    ppu.write_to_ppu_addr(0x00);
    assert_eq!(ppu.read_data(), 0x00);
    assert_eq!(ppu.read_data(), 0x42);
}

#[test]
fn test_status_read_resets_addr_latch() {
    // After any ADDR writes, a STATUS read makes the next write the high
    // byte again.
    let mut ppu = ppu_with_chr(vec![0; 8192]);
    ppu.bus.write_to_vram(0x0005, 0x66);
    ppu.write_to_ppu_addr(0x21);
    ppu.read_status();
    ppu.write_to_ppu_addr(0x20);
    ppu.write_to_ppu_addr(0x05);
    ppu.read_data();
    assert_eq!(ppu.read_data(), 0x66);
}

#[test]
fn test_status_read_clears_vblank() {
    let mut ppu = Ppu::new();
    ppu.status.set_vblank_status(true);
    let before = ppu.read_status();
    assert_eq!(before & 0b1000_0000, 0b1000_0000);
    let after = ppu.read_status();
    assert_eq!(after & 0b1000_0000, 0);
}

#[test]
fn test_oam_read_write() {
    let mut ppu = Ppu::new();
    ppu.write_to_oam_addr(0x10);
    ppu.write_to_oam_data(0x77);
    ppu.write_to_oam_addr(0x10);
    assert_eq!(ppu.read_oam_data(), 0x77);
}

#[test]
fn test_oam_addr_wraps_on_write() {
    let mut ppu = Ppu::new();
    ppu.write_to_oam_addr(0xff);
    ppu.write_to_oam_data(0x12);
    // OAMADDR wrapped from $FF to $00.
    ppu.write_to_oam_data(0x34);
    ppu.write_to_oam_addr(0xff);
    assert_eq!(ppu.read_oam_data(), 0x12);
    ppu.write_to_oam_addr(0x00);
    assert_eq!(ppu.read_oam_data(), 0x34);
}

#[test]
fn test_oam_dma_wraps() {
    let mut ppu = Ppu::new();
    let mut page = vec![0u8; 256];
    for i in 0..256 {
        page[i] = i as u8;
    }
    ppu.write_to_oam_addr(0x80);
    ppu.write_oam_dma(&page);
    // Byte 0 landed at the starting OAMADDR, the rest wrapped modulo 256.
    ppu.write_to_oam_addr(0x80);
    assert_eq!(ppu.read_oam_data(), 0x00);
    ppu.write_to_oam_addr(0x00);
    assert_eq!(ppu.read_oam_data(), 0x80);
    ppu.write_to_oam_addr(0x7f);
    assert_eq!(ppu.read_oam_data(), 0xff);
}

#[test]
fn test_data_read_increments_by_ctrl_step() {
    let mut ppu = ppu_with_chr(vec![0; 8192]);
    ppu.bus.write_to_vram(0x0000, 0x11);
    ppu.bus.write_to_vram(0x0020, 0x22);
    // Increment step 32: consecutive reads walk one column.
    ppu.write_to_ctrl(0b0000_0100);
    ppu.write_to_ppu_addr(0x20);
    ppu.write_to_ppu_addr(0x00);
    ppu.read_data();
    assert_eq!(ppu.read_data(), 0x11);
    ppu.write_to_ppu_addr(0x20);
    ppu.write_to_ppu_addr(0x20);
    ppu.read_data();
    assert_eq!(ppu.read_data(), 0x22);
}

#[test]
fn test_vblank_entry_and_nmi() {
    // Scanline 241 sets vblank and raises NMI when CTRL enables it.
    let mut ppu = ppu_with_chr(vec![0; 8192]);
    ppu.write_to_ctrl(0b1000_0000);
    let mut scanlines = 0;
    while scanlines < 241 {
        if ppu.tick().unwrap() {
            scanlines += 1;
        }
    }
    assert!(ppu.status.is_in_vblank());
    assert!(ppu.nmi_interrupt());
    assert!(ppu.poll_nmi_status());
    assert!(!ppu.poll_nmi_status());
}

#[test]
fn test_ctrl_rising_nmi_in_vblank() {
    // Enabling the NMI bit while STATUS already shows vblank raises NMI at
    // once.
    let mut ppu = Ppu::new();
    ppu.status.set_vblank_status(true);
    assert!(!ppu.nmi_interrupt());
    ppu.write_to_ctrl(0b1000_0000);
    assert!(ppu.nmi_interrupt());
}
