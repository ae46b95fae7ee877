//! The nestest-style trace format.

use nes_core::cpu::CPU;
use nes_core::cpu_bus::CpuBus;
use nes_core::ppu::Ppu;

#[test]
fn test_trace() {
    let mut bus = CpuBus::new();
    bus.connect_ppu(Ppu::new());
    bus.mem_write(100, 0xa2);
    bus.mem_write(101, 0x01);
    bus.mem_write(102, 0xca);
    bus.mem_write(103, 0x88);
    bus.mem_write(104, 0x00);

    let mut cpu = CPU::new();
    cpu.connect_bus(bus);
    cpu.program_counter = 0x64;
    cpu.register_a = 1;
    cpu.register_x = 2;
    cpu.register_y = 3;
    let mut result: Vec<String> = vec![];
    loop {
        if cpu.instruction_changed() {
            result.push(cpu.trace());
        }
        match cpu.tick() {
            Ok(true) => {},
            Ok(false) => break,
            Err(e) => panic!("unexpected cpu fault: {:?}", e),
        }
    }
    assert_eq!(
        "0064  A2 01     LDX #$01                        A:01 X:02 Y:03 P:24 SP:FD",
        result[0]
    );
    assert_eq!(
        "0066  CA        DEX                             A:01 X:01 Y:03 P:24 SP:FD",
        result[1]
    );
    assert_eq!(
        "0067  88        DEY                             A:01 X:00 Y:03 P:26 SP:FD",
        result[2]
    );
}

#[test]
fn test_trace_operand_formats() {
    let mut cpu = CPU::new();
    cpu.mem_write(0x0010, 0x55);
    // LDA $10
    cpu.mem_write(0x0200, 0xa5);
    cpu.mem_write(0x0201, 0x10);
    cpu.program_counter = 0x0200;
    assert_eq!(
        "0200  A5 10     LDA $10 = 55                    A:00 X:00 Y:00 P:24 SP:FD",
        cpu.trace()
    );
    // STA $1234,X with X = 4
    cpu.mem_write(0x0202, 0x9d);
    cpu.mem_write(0x0203, 0x34);
    cpu.mem_write(0x0204, 0x12);
    cpu.mem_write(0x1238, 0x77);
    cpu.register_x = 4;
    cpu.program_counter = 0x0202;
    assert_eq!(
        "0202  9D 34 12  STA $1234,X @ 1238 = 77         A:00 X:04 Y:00 P:24 SP:FD",
        cpu.trace()
    );
    // Accumulator form
    cpu.mem_write(0x0205, 0x0a);
    cpu.program_counter = 0x0205;
    assert_eq!(
        "0205  0A        ASL A                           A:00 X:04 Y:00 P:24 SP:FD",
        cpu.trace()
    );
    // An unofficial NOP keeps its star prefix
    cpu.mem_write(0x0206, 0x04);
    cpu.mem_write(0x0207, 0x10);
    cpu.program_counter = 0x0206;
    assert_eq!(
        "0206  04 10    *NOP $10 = 55                    A:00 X:04 Y:00 P:24 SP:FD",
        cpu.trace()
    );
}
