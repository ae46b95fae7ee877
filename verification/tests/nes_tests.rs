//! Console-level runs: full programs executed through the wired CPU, PPU
//! and buses.

use nes_core::cartridge::{Cartridge, Mirroring};
use nes_core::nes::NES;

fn program_cartridge(code: &[u8]) -> Cartridge {
    let mut prg_rom = vec![0u8; 0xFFFF];
    prg_rom[0..code.len()].copy_from_slice(code);
    // Set program start at address 0xFFFC (0x8000)
    let hi = (0x8000u16 >> 8) as u8;
    let lo = (0x8000u16 & 0xff) as u8;
    prg_rom[0xFFFC - 0x8000] = lo;
    prg_rom[0xFFFC + 1 - 0x8000] = hi;
    Cartridge {
        prg_rom,
        chr_rom: vec![],
        mapper: 0,
        screen_mirroring: Mirroring::FourScreen,
    }
}

fn run_counting_instructions(nes: &mut NES) -> u32 {
    let mut inst_count = 0;
    loop {
        if nes.on_instruction_boundary() {
            inst_count += 1;
        }
        let report = nes.step().unwrap();
        if !report.running {
            break;
        }
    }
    inst_count
}

#[test]
fn mod_tests_test_run() {
    // Push 5 to a, then push 2 to a (that is: 2 instructions)
    let code = vec![0xa9, 0x05, 0xa9, 0x02, 0x00];
    let mut nes = NES::new();
    nes.insert(program_cartridge(&code));
    nes.reset();
    let inst_count = run_counting_instructions(&mut nes);
    assert_eq!(inst_count, 3)
}

#[test]
fn nes_tests_test_run() {
    let code = vec![0xa9, 0x05, 0xa9, 0x02, 0x00];
    let mut nes = NES::new();
    nes.insert(program_cartridge(&code));
    nes.reset();
    let inst_count = run_counting_instructions(&mut nes);
    assert_eq!(inst_count, 3)
}

#[test]
fn test_run_leaves_registers() {
    let code = vec![0xa9, 0x05, 0xaa, 0x00];
    let mut nes = NES::new();
    nes.insert(program_cartridge(&code));
    nes.reset();
    nes.run().unwrap();
    assert_eq!(nes.cpu.register_a, 0x05);
    assert_eq!(nes.cpu.register_x, 0x05);
}

#[test]
fn test_start_at() {
    let mut code = vec![0u8; 0x20];
    code[0x10] = 0xa9;
    code[0x11] = 0x07;
    code[0x12] = 0x00;
    let mut nes = NES::new();
    nes.insert(program_cartridge(&code));
    nes.reset();
    nes.start_at(0x8010);
    nes.run().unwrap();
    assert_eq!(nes.cpu.register_a, 0x07);
}

#[test]
fn test_prg_mirror_through_console() {
    // A one-page image: reading $C000 equals reading $8000.
    let mut prg_rom = vec![0u8; 0x4000];
    prg_rom[0] = 0xd8;
    let cartridge = Cartridge {
        prg_rom,
        chr_rom: vec![],
        mapper: 0,
        screen_mirroring: Mirroring::Vertical,
    };
    let mut nes = NES::new();
    nes.insert(cartridge);
    assert_eq!(nes.cpu.mem_read(0xc000), 0xd8);
    assert_eq!(nes.cpu.mem_read(0xc000), nes.cpu.mem_read(0x8000));
}

#[test]
fn test_loaded_image_reads() {
    // An iNES image with one PRG page whose bytes begin D8: the CPU bus
    // sees $00D8 at $8000 and the mirror at $C000.
    let mut raw = vec![0u8; 16 + 0x4000];
    raw[0] = 0x4e;
    raw[1] = 0x45;
    raw[2] = 0x53;
    raw[3] = 0x1a;
    raw[4] = 1;
    raw[5] = 0;
    raw[16] = 0xd8;
    let cartridge = Cartridge::new(&raw).unwrap();
    let mut nes = NES::new();
    nes.insert(cartridge);
    assert_eq!(nes.cpu.mem_read_u16(0x8000), 0x00d8);
    assert_eq!(nes.cpu.mem_read(0xc000), 0xd8);
}

#[test]
fn test_frame_ready_once_per_frame() {
    // The frame edge fires exactly once per 262-scanline frame.
    let code = vec![0x4c, 0x00, 0x80]; // JMP $8000: loop forever
    let mut nes = NES::new();
    nes.insert(program_cartridge(&code));
    nes.reset();
    nes.cpu.mem_write(0x2000, 0b1000_0000); // enable vblank NMI
    let mut edges = 0;
    // Two frames: 2 * 262 * 341 PPU dots at three dots per step.
    let steps = 2 * 262 * 341 / 3 + 10;
    for _ in 0..steps {
        let report = nes.step().unwrap();
        if report.frame_ready {
            edges += 1;
        }
    }
    assert_eq!(edges, 2);
}
