//! Rendering: the system palette, tile decoding on the frame, and the
//! sprite pass.

use nes_core::cartridge::{Cartridge, Mirroring};
use nes_core::frame::Frame;
use nes_core::palette::system_palette;
use nes_core::ppu::Ppu;
use nes_core::render::{render_screen, render_tiles_bank};

fn pixel(frame: &Frame, x: usize, y: usize) -> (u8, u8, u8) {
    let base = y * 3 * 256 + x * 3;
    let data = frame.data();
    (data[base], data[base + 1], data[base + 2])
}

#[test]
fn test_system_palette_values() {
    assert_eq!(system_palette(0x00), (0x80, 0x80, 0x80));
    assert_eq!(system_palette(0x01), (0x00, 0x3d, 0xa6));
    assert_eq!(system_palette(0x30), (0xff, 0xff, 0xff));
    // The index folds to six bits.
    assert_eq!(system_palette(0x40), system_palette(0x00));
}

fn ppu_with_one_tile() -> Ppu {
    // Tile 1: a solid tile whose every pixel has plane value 1.
    let mut chr = vec![0u8; 8192];
    for row in 0..8 {
        chr[16 + row] = 0xff; // low plane set
    }
    let cartridge = Cartridge {
        prg_rom: vec![],
        chr_rom: chr,
        mapper: 0,
        screen_mirroring: Mirroring::Vertical,
    };
    let mut ppu = Ppu::new();
    ppu.connect_cartridge(&cartridge);
    ppu
}

#[test]
fn test_render_screen_background_tile() {
    let mut ppu = ppu_with_one_tile();
    // Nametable entry (0, 0) holds tile 1; palette entry 1 holds colour $21.
    ppu.bus.write_to_vram(0x0000, 0x01);
    ppu.write_to_ppu_addr(0x3f);
    ppu.write_to_ppu_addr(0x01);
    ppu.write_to_data(0x21);
    let mut frame = Frame::new();
    render_screen(&ppu, &mut frame);
    assert_eq!(pixel(&frame, 0, 0), system_palette(0x21));
    assert_eq!(pixel(&frame, 7, 7), system_palette(0x21));
    // The neighbouring tile is empty and shows the universal colour.
    assert_eq!(pixel(&frame, 8, 0), system_palette(0x00));
}

#[test]
fn test_render_screen_sprite_on_top() {
    let mut ppu = ppu_with_one_tile();
    // Sprite 0: tile 1 at (16, 32), palette 0.
    ppu.write_to_oam_addr(0x00);
    ppu.write_to_oam_data(32); // Y
    ppu.write_to_oam_data(1); // tile
    ppu.write_to_oam_data(0); // attributes
    ppu.write_to_oam_data(16); // X
    // Sprite palette 0, colour 1 lives at $3F11.
    ppu.write_to_ppu_addr(0x3f);
    ppu.write_to_ppu_addr(0x11);
    ppu.write_to_data(0x2a);
    let mut frame = Frame::new();
    render_screen(&ppu, &mut frame);
    assert_eq!(pixel(&frame, 16, 32), system_palette(0x2a));
    assert_eq!(pixel(&frame, 23, 39), system_palette(0x2a));
}

#[test]
fn test_render_tiles_bank_preview() {
    // The preview draws tile 1 in its 10x10 slot; the bank preview swaps
    // the planes, so a low-plane-only tile reads as value 2.
    let mut chr = vec![0u8; 8192];
    for row in 0..8 {
        chr[16 + row] = 0xff;
    }
    let cartridge = Cartridge {
        prg_rom: vec![],
        chr_rom: chr,
        mapper: 0,
        screen_mirroring: Mirroring::Vertical,
    };
    let frame = render_tiles_bank(&cartridge, 0);
    assert_eq!(pixel(&frame, 10, 0), system_palette(0x27));
    // Tile 0 is blank and shows the backdrop colour of the preview.
    assert_eq!(pixel(&frame, 0, 0), system_palette(0x01));
}
