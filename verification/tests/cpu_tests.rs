//! CPU-level scenarios: reset, boundary behaviours and the documented
//! 6502 quirks.

use nes_core::cpu::{CPU, CPUError, FLAG_ZERO, FLAG_NEGATIVE, FLAG_OVERFLOW};

fn run_code(cpu: &mut CPU, code: Vec<u8>) -> Result<(), CPUError> {
    cpu.load(code);
    cpu.program_counter = cpu.mem_read_u16(0xFFFC);
    cpu.run()
}

#[test]
fn test_5_ops_working_together() {
    let mut cpu = CPU::new();
    cpu.load_and_run(vec![0xa9, 0xc0, 0xaa, 0xe8, 0x00]).unwrap();
    assert_eq!(cpu.register_x, 0xc1)
}

#[test]
fn test_reset_state() {
    let mut cpu = CPU::new();
    cpu.register_a = 9;
    cpu.register_x = 9;
    cpu.register_y = 9;
    cpu.status = 0xff;
    cpu.stack_pointer = 0;
    cpu.mem_write_u16(0xfffc, 0x1234);
    cpu.reset();
    assert_eq!(cpu.register_a, 0);
    assert_eq!(cpu.register_x, 0);
    assert_eq!(cpu.register_y, 0);
    assert_eq!(cpu.stack_pointer, 0xfd);
    assert_eq!(cpu.status, 0x24);
    assert_eq!(cpu.program_counter, 0x1234);
}

#[test]
fn test_inx_overflow_program() {
    // Program A9 FF AA E8 E8 00 at $8600, reset vector at $8600.
    let mut cpu = CPU::new();
    cpu.load_and_run(vec![0xa9, 0xff, 0xaa, 0xe8, 0xe8, 0x00]).unwrap();
    assert_eq!(cpu.register_x, 0x01);
    assert_eq!(cpu.status & FLAG_ZERO, 0);
    assert_eq!(cpu.status & FLAG_NEGATIVE, 0);
}

#[test]
fn test_lda_from_memory_scenario() {
    // Write $55 to $0010, execute A5 10 00.
    let mut cpu = CPU::new();
    cpu.mem_write(0x0010, 0x55);
    run_code(&mut cpu, vec![0xa5, 0x10, 0x00]).unwrap();
    assert_eq!(cpu.register_a, 0x55);
    assert_eq!(cpu.status & FLAG_ZERO, 0);
    assert_eq!(cpu.status & FLAG_NEGATIVE, 0);
}

#[test]
fn test_jmp_indirect_page_wrap() {
    // mem[$30FF] = $80, mem[$3000] = $40; JMP ($30FF) lands at $4080.
    let mut cpu = CPU::new();
    cpu.mem_write(0x30ff, 0x80);
    cpu.mem_write(0x3000, 0x40);
    cpu.mem_write(0x8600, 0x6c);
    cpu.mem_write(0x8601, 0xff);
    cpu.mem_write(0x8602, 0x30);
    cpu.program_counter = 0x8600;
    cpu.tick().unwrap();
    assert_eq!(cpu.program_counter, 0x4080);
}

#[test]
fn test_bit_zero_page() {
    // A = $05, mem[$05] = $00: Z set, N and V clear.
    let mut cpu = CPU::new();
    cpu.register_a = 0x05;
    cpu.mem_write(0x0005, 0x00);
    run_code(&mut cpu, vec![0x24, 0x05, 0x00]).unwrap();
    assert_ne!(cpu.status & FLAG_ZERO, 0);
    assert_eq!(cpu.status & FLAG_NEGATIVE, 0);
    assert_eq!(cpu.status & FLAG_OVERFLOW, 0);
}

#[test]
fn test_branch_taken_cycles() {
    // A taken BEQ without a page cross charges 3 cycles.
    let mut cpu = CPU::new();
    cpu.mem_write(0x8600, 0xf0);
    cpu.mem_write(0x8601, 0xfe);
    cpu.program_counter = 0x8600;
    cpu.status |= FLAG_ZERO;
    cpu.tick().unwrap();
    assert_eq!(cpu.program_counter, 0x8600);
    assert_eq!(cpu.remaining_cycles, 3);
}

#[test]
fn test_branch_page_cross_cycles() {
    // A taken branch whose target crosses a page charges one more cycle.
    let mut cpu = CPU::new();
    cpu.mem_write(0x8600, 0xf0);
    cpu.mem_write(0x8601, 0x80);
    cpu.program_counter = 0x8600;
    cpu.status |= FLAG_ZERO;
    cpu.tick().unwrap();
    assert_eq!(cpu.program_counter, 0x8582);
    assert_eq!(cpu.remaining_cycles, 4);
}

#[test]
fn test_branch_not_taken_cycles() {
    let mut cpu = CPU::new();
    cpu.mem_write(0x8600, 0xf0);
    cpu.mem_write(0x8601, 0x10);
    cpu.program_counter = 0x8600;
    cpu.status &= !FLAG_ZERO;
    cpu.tick().unwrap();
    assert_eq!(cpu.program_counter, 0x8602);
    assert_eq!(cpu.remaining_cycles, 2);
}

#[test]
fn test_pc_advances_by_length() {
    // One step advances PC by the instruction length when the instruction
    // does not write PC itself.
    let mut cpu = CPU::new();
    // LDA #$42 (two bytes).
    cpu.mem_write(0x8600, 0xa9);
    cpu.mem_write(0x8601, 0x42);
    cpu.program_counter = 0x8600;
    cpu.tick().unwrap();
    assert_eq!(cpu.program_counter, 0x8602);
    // LDA $1234 (three bytes).
    cpu.mem_write(0x8602, 0xad);
    cpu.mem_write(0x8603, 0x34);
    cpu.mem_write(0x8604, 0x12);
    while cpu.remaining_cycles > 0 {
        cpu.tick().unwrap();
    }
    cpu.tick().unwrap();
    assert_eq!(cpu.program_counter, 0x8605);
    // NOP (one byte).
    cpu.mem_write(0x8605, 0xea);
    while cpu.remaining_cycles > 0 {
        cpu.tick().unwrap();
    }
    cpu.tick().unwrap();
    assert_eq!(cpu.program_counter, 0x8606);
}

#[test]
fn test_ram_write_then_read_identity() {
    let mut cpu = CPU::new();
    cpu.mem_write(0x0123, 0x99);
    assert_eq!(cpu.mem_read(0x0123), 0x99);
    cpu.mem_write_u16(0x0200, 0xbeef);
    assert_eq!(cpu.mem_read_u16(0x0200), 0xbeef);
}
