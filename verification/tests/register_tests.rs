//! The PPU's internal registers: ADDR assembly and mirroring, SCROLL's
//! shared latch, STATUS bit handling, and CTRL decoding.

use nes_core::registers::{AddrRegister, ControlRegister, ScrollRegister, StatusRegister};

#[test]
fn addr_register_tests_test_update() {
    let mut reg = AddrRegister::new();
    reg.update(0x06);
    reg.update(0x00);
    assert_eq!(reg.get(), 0x0600);
}

#[test]
fn test_update_mirror() {
    let mut reg = AddrRegister::new();
    reg.update(0x4f);
    reg.update(0xff);
    assert_eq!(reg.get(), 0x4fff - 0x3fff - 1);
}

#[test]
fn test_increment_within_bounds() {
    let mut reg = AddrRegister::new();
    reg.set(0x1234);
    reg.increment(0x01);
    assert_eq!(reg.get(), 0x1235);
}

#[test]
fn test_increment_wraps_around() {
    let mut reg = AddrRegister::new();
    reg.set(0x3fff);
    reg.increment(0x01);
    assert_eq!(reg.get(), 0x0000);
}

#[test]
fn test_increment_overflow() {
    let mut reg = AddrRegister::new();
    reg.set(0x3fff);
    reg.increment(0xff);
    assert_eq!(reg.get(), 0x00fe);
}

#[test]
fn control_register_tests_test_update() {
    let mut reg = ControlRegister::new();
    reg.update(0b11111111);
    assert_eq!(reg.bits(), 0b11111111);
}

#[test]
fn test_control_register_decoding() {
    let mut reg = ControlRegister::new();
    reg.update(0b0000_0000);
    assert_eq!(reg.nametable_addr(), 0x2000);
    assert_eq!(reg.vram_addr_increment(), 1);
    assert_eq!(reg.bknd_pattern_addr(), 0x0000);
    assert_eq!(reg.sprt_pattern_addr(), 0x0000);
    assert!(!reg.generate_vblank_nmi());
    reg.update(0b1001_1111);
    assert_eq!(reg.nametable_addr(), 0x2c00);
    assert_eq!(reg.vram_addr_increment(), 32);
    assert_eq!(reg.bknd_pattern_addr(), 0x1000);
    assert_eq!(reg.sprt_pattern_addr(), 0x1000);
    assert!(reg.generate_vblank_nmi());
}

#[test]
fn test_scroll_register_write() {
    let mut scroll_register = ScrollRegister::new();
    scroll_register.write(0x22);
    assert_eq!(scroll_register.scroll_x, 0x22);
    assert_eq!(scroll_register.scroll_y, 0);
    assert!(scroll_register.latch);

    scroll_register.write(0x33);
    assert_eq!(scroll_register.scroll_x, 0x22);
    assert_eq!(scroll_register.scroll_y, 0x33);
    assert!(!scroll_register.latch);

    scroll_register.write(0x44);
    assert_eq!(scroll_register.scroll_x, 0x44);
    assert_eq!(scroll_register.scroll_y, 0x33);
    assert!(scroll_register.latch);
}

#[test]
fn test_scroll_register_reset_latch() {
    let mut scroll_register = ScrollRegister::new();
    scroll_register.write(0x22);
    assert!(scroll_register.latch);

    scroll_register.reset_latch();
    assert!(!scroll_register.latch);
}

#[test]
fn test_status_register_new() {
    let status_register = StatusRegister::new();
    assert_eq!(status_register.bits(), 0b00000000);
}

#[test]
fn test_status_register_set_vblank_status() {
    let mut status_register = StatusRegister::new();
    status_register.set_vblank_status(true);
    assert_eq!(status_register.bits(), 0b10000000);

    status_register.set_vblank_status(false);
    assert_eq!(status_register.bits(), 0b00000000);
}

#[test]
fn test_status_register_set_sprite_zero_hit() {
    let mut status_register = StatusRegister::new();
    status_register.set_sprite_zero_hit(true);
    assert_eq!(status_register.bits(), 0b01000000);

    status_register.set_sprite_zero_hit(false);
    assert_eq!(status_register.bits(), 0b00000000);
}

#[test]
fn test_status_register_set_sprite_overflow() {
    let mut status_register = StatusRegister::new();
    status_register.set_sprite_overflow(true);
    assert_eq!(status_register.bits(), 0b00100000);

    status_register.set_sprite_overflow(false);
    assert_eq!(status_register.bits(), 0b00000000);
}

#[test]
fn test_status_register_reset_vblank_status() {
    let mut status_register = StatusRegister::new();
    status_register.set_vblank_status(true);
    status_register.reset_vblank_status();
    assert_eq!(status_register.bits(), 0b00000000);
}

#[test]
fn test_status_register_is_in_vblank() {
    let mut status_register = StatusRegister::new();
    status_register.set_vblank_status(true);
    assert_eq!(status_register.is_in_vblank(), true);

    status_register.set_vblank_status(false);
    assert_eq!(status_register.is_in_vblank(), false);
}

#[test]
fn test_status_register_snapshot() {
    let mut status_register = StatusRegister::new();
    status_register.set_vblank_status(true);
    status_register.snapshot();
    assert_eq!(status_register.bits(), 0b10000000);
}
