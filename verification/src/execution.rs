//! The CPU execution loop: interrupt servicing, opcode dispatch, the
//! cycle-counted `tick`, reset, program loading and the run loop.

use vstd::prelude::*;
use crate::cpu::{
    CPU, CpuMem, CpuMemView, CpuView, CPUError, spec_cpu_read, spec_cpu_read16, spec_cpu_write16,
    spec_stack_push, spec_stack_push16, spec_wadd8, spec_wadd16, FLAG_BREAK, FLAG_BREAK2,
    FLAG_INTERRUPT_DISABLE, FLAG_DECIMAL_MODE, FLAG_CARRY, FLAG_ZERO, FLAG_OVERFLOW,
    FLAG_NEGATIVE, STACK_RESET,
};
use crate::cpu_bus::CpuBusView;
use crate::instructions::spec_bump_if;
use crate::opcode::{AddressingMode, opcode_info, spec_opcode};
use crate::ppu::PpuView;

verus! {

/// The interrupts the CPU can service.
#[derive(Debug, PartialEq, Eq, Clone, Copy, Structural)]
pub enum InterruptType {
    Nmi,
    Brk,
}

/// The vector each interrupt fetches its handler from.
pub open spec fn spec_interrupt_vector(itype: InterruptType) -> u16 {
    match itype {
        InterruptType::Nmi => 0xfffa,
        InterruptType::Brk => 0xfffe,
    }
}

/// The cycles an interrupt charges.
pub open spec fn spec_interrupt_cycles(itype: InterruptType) -> u8 {
    match itype {
        InterruptType::Nmi => 2,
        InterruptType::Brk => 1,
    }
}

/// Servicing an interrupt: return address and status (B and B2 cleared) go
/// onto the stack, interrupts are disabled, and execution continues at the
/// handler the vector names.
pub open spec fn spec_interrupt(c: CpuView, itype: InterruptType) -> CpuView {
    let c1 = spec_stack_push16(c, c.program_counter);
    let c2 = spec_stack_push(c1, c1.status & !(FLAG_BREAK | FLAG_BREAK2));
    let c3 = CpuView {
        status: c2.status | FLAG_INTERRUPT_DISABLE,
        remaining_cycles: spec_wadd8(c2.remaining_cycles, spec_interrupt_cycles(itype) as int),
        ..c2
    };
    let rd = spec_cpu_read16(c3, spec_interrupt_vector(itype));
    CpuView { program_counter: rd.1, ..rd.0 }
}

/// Sampling the NMI line: only a console bus with a PPU can raise it, and
/// sampling consumes the pending flag.
pub open spec fn spec_poll_nmi(c: CpuView) -> (CpuView, bool) {
    match c.mem {
        CpuMemView::Flat(_) => (c, false),
        CpuMemView::Bus(b) => match b.ppu {
            Some(p) => (
                CpuView {
                    mem: CpuMemView::Bus(
                        CpuBusView { ppu: Some(PpuView { nmi_interrupt: false, ..p }), ..b },
                    ),
                    ..c
                },
                p.nmi_interrupt,
            ),
            None => (c, false),
        },
    }
}

/// The effect of one decoded opcode, not counting the fetch, the base cycle
/// charge or the final program-counter advance.
#[verifier::opaque]
pub open spec fn spec_exec_op(c: CpuView, code: u8) -> CpuView {
    let mode = spec_opcode(code).mode;
    match code {
        0xa9 | 0xa5 | 0xb5 | 0xad | 0xbd | 0xb9 | 0xa1 | 0xb1 => crate::instructions::spec_lda(c, mode),
        0xaa => crate::instructions::spec_tax_of(c),
        0xe8 => crate::instructions::spec_inx_of(c),
        0xd8 => crate::cpu::spec_set_flag_view(c, FLAG_DECIMAL_MODE, false),
        0x58 => crate::cpu::spec_set_flag_view(c, FLAG_INTERRUPT_DISABLE, false),
        0xb8 => crate::cpu::spec_set_flag_view(c, FLAG_OVERFLOW, false),
        0x18 => crate::cpu::spec_set_flag_view(c, FLAG_CARRY, false),
        0x38 => crate::cpu::spec_set_flag_view(c, FLAG_CARRY, true),
        0x78 => crate::cpu::spec_set_flag_view(c, FLAG_INTERRUPT_DISABLE, true),
        0xf8 => crate::cpu::spec_set_flag_view(c, FLAG_DECIMAL_MODE, true),
        0x48 => spec_stack_push(c, c.register_a),
        0x68 => crate::instructions::spec_pla_of(c),
        0x08 => spec_stack_push(c, c.status | FLAG_BREAK | FLAG_BREAK2),
        0x28 => crate::instructions::spec_plp_of(c),
        0x69 | 0x65 | 0x75 | 0x6d | 0x7d | 0x79 | 0x61 | 0x71 => crate::instructions::spec_adc(c, mode),
        0xe9 | 0xe5 | 0xf5 | 0xed | 0xfd | 0xf9 | 0xe1 | 0xf1 => crate::instructions::spec_sbc(c, mode),
        0x29 | 0x25 | 0x35 | 0x2d | 0x3d | 0x39 | 0x21 | 0x31 => crate::instructions::spec_and(c, mode),
        0x49 | 0x45 | 0x55 | 0x4d | 0x5d | 0x59 | 0x41 | 0x51 => crate::instructions::spec_eor(c, mode),
        0x09 | 0x05 | 0x15 | 0x0d | 0x1d | 0x19 | 0x01 | 0x11 => crate::instructions::spec_ora(c, mode),
        0x4a => crate::instructions::spec_lsr_acc(c),
        0x46 | 0x56 | 0x4e | 0x5e => crate::instructions::spec_lsr_mem(c, mode).0,
        0x0a => crate::instructions::spec_asl_acc(c),
        0x06 | 0x16 | 0x0e | 0x1e => crate::instructions::spec_asl_mem(c, mode).0,
        0x2a => crate::instructions::spec_rol_acc(c),
        0x26 | 0x36 | 0x2e | 0x3e => crate::instructions::spec_rol_mem(c, mode).0,
        0x6a => crate::instructions::spec_ror_acc(c),
        0x66 | 0x76 | 0x6e | 0x7e => crate::instructions::spec_ror_mem(c, mode).0,
        0xe6 | 0xf6 | 0xee | 0xfe => crate::instructions::spec_inc_mem(c, mode).0,
        0xc8 => crate::instructions::spec_iny_of(c),
        0xc6 | 0xd6 | 0xce | 0xde => crate::instructions::spec_dec_mem(c, mode).0,
        0xca => crate::instructions::spec_dex_of(c),
        0x88 => crate::instructions::spec_dey_of(c),
        0xc9 | 0xc5 | 0xd5 | 0xcd | 0xdd | 0xd9 | 0xc1 | 0xd1 => crate::instructions::spec_compare(
            c,
            mode,
            c.register_a,
        ),
        0xc0 | 0xc4 | 0xcc => crate::instructions::spec_compare(c, mode, c.register_y),
        0xe0 | 0xe4 | 0xec => crate::instructions::spec_compare(c, mode, c.register_x),
        0x4c => crate::instructions::spec_jmp_absolute(c),
        0x6c => crate::instructions::spec_jmp_indirect(c),
        0x20 => crate::instructions::spec_jsr(c),
        0x60 => crate::instructions::spec_rts(c),
        0x40 => crate::instructions::spec_rti(c),
        0xd0 => crate::instructions::spec_branch(c, c.status & FLAG_ZERO == 0),
        0x70 => crate::instructions::spec_branch(c, c.status & FLAG_OVERFLOW != 0),
        0x50 => crate::instructions::spec_branch(c, c.status & FLAG_OVERFLOW == 0),
        0x10 => crate::instructions::spec_branch(c, c.status & FLAG_NEGATIVE == 0),
        0x30 => crate::instructions::spec_branch(c, c.status & FLAG_NEGATIVE != 0),
        0xf0 => crate::instructions::spec_branch(c, c.status & FLAG_ZERO != 0),
        0xb0 => crate::instructions::spec_branch(c, c.status & FLAG_CARRY != 0),
        0x90 => crate::instructions::spec_branch(c, c.status & FLAG_CARRY == 0),
        0x24 | 0x2c => crate::instructions::spec_bit(c, mode),
        0x85 | 0x95 | 0x8d | 0x9d | 0x99 | 0x81 | 0x91 => crate::instructions::spec_sta(c, mode),
        0x86 | 0x96 | 0x8e => crate::instructions::spec_stx(c, mode),
        0x84 | 0x94 | 0x8c => crate::instructions::spec_sty(c, mode),
        0xa2 | 0xa6 | 0xb6 | 0xae | 0xbe => crate::instructions::spec_ldx(c, mode),
        0xa0 | 0xa4 | 0xb4 | 0xac | 0xbc => crate::instructions::spec_ldy(c, mode),
        0xa8 => crate::instructions::spec_tay_of(c),
        0xba => crate::instructions::spec_tsx_of(c),
        0x8a => crate::instructions::spec_txa_of(c),
        0x9a => CpuView { stack_pointer: c.register_x, ..c },
        0x98 => crate::instructions::spec_tya_of(c),
        0xa7 | 0xb7 | 0xaf | 0xbf | 0xa3 | 0xb3 => crate::unofficial::spec_lax(c, mode),
        0x87 | 0x97 | 0x8f | 0x83 => crate::unofficial::spec_sax(c, mode),
        0x04 | 0x44 | 0x64 | 0x14 | 0x34 | 0x54 | 0x74 | 0xd4 | 0xf4 | 0x0c | 0x1c | 0x3c | 0x5c
            | 0x7c | 0xdc | 0xfc => spec_nop_read(c, mode),
        0xeb => crate::unofficial::spec_unofficial_sbc(c, mode),
        0xc7 | 0xd7 | 0xcf | 0xdf | 0xdb | 0xd3 | 0xc3 => crate::unofficial::spec_dcp(c, mode),
        0xe7 | 0xf7 | 0xef | 0xff | 0xfb | 0xe3 | 0xf3 => crate::unofficial::spec_isb(c, mode),
        0x07 | 0x17 | 0x0f | 0x1f | 0x1b | 0x03 | 0x13 => crate::unofficial::spec_slo(c, mode),
        0x27 | 0x37 | 0x2f | 0x3f | 0x3b | 0x33 | 0x23 => crate::unofficial::spec_rla(c, mode),
        0x47 | 0x57 | 0x4f | 0x5f | 0x5b | 0x43 | 0x53 => crate::unofficial::spec_sre(c, mode),
        0x67 | 0x77 | 0x6f | 0x7f | 0x7b | 0x63 | 0x73 => crate::unofficial::spec_rra(c, mode),
        0xcb => crate::unofficial::spec_axs(c, mode),
        0x6b => crate::unofficial::spec_arr(c, mode),
        0x0b | 0x2b => crate::unofficial::spec_anc(c, mode),
        0x4b => crate::unofficial::spec_alr(c, mode),
        0xab => crate::unofficial::spec_lxa(c, mode),
        0x8b => crate::unofficial::spec_xaa(c, mode),
        0xbb => crate::unofficial::spec_las(c, mode),
        0x9b => crate::unofficial::spec_tas(c),
        0x93 => crate::unofficial::spec_ahx_indirect_y(c),
        0x9f => crate::unofficial::spec_ahx_absolute_y(c),
        0x9e => crate::unofficial::spec_shx(c),
        0x9c => crate::unofficial::spec_shy(c),
        _ => c,
    }
}

/// The unofficial NOPs that still read their operand and charge the
/// page-cross cycle.
#[verifier::opaque]
pub open spec fn spec_nop_read(c: CpuView, mode: AddressingMode) -> CpuView {
    let op = crate::cpu::spec_operand_addr(c, mode);
    let rd = spec_cpu_read(op.0, op.1);
    spec_bump_if(rd.0, op.2)
}

/// One CPU cycle.  While cycles of the current instruction remain, only the
/// counter falls.  On an instruction boundary the NMI line is sampled and
/// serviced, the next opcode is fetched and executed, its base cycles are
/// charged, and the program counter advances by the instruction length
/// unless the instruction wrote it.  The second component is false exactly
/// when the fetched opcode was BRK, which ends the run.
pub open spec fn spec_cpu_tick(c: CpuView) -> (CpuView, bool) {
    if c.remaining_cycles > 0 {
        (CpuView { remaining_cycles: (c.remaining_cycles - 1) as u8, ..c }, true)
    } else {
        let polled = spec_poll_nmi(c);
        let c0 = if polled.1 {
            spec_interrupt(polled.0, InterruptType::Nmi)
        } else {
            polled.0
        };
        let fetched = spec_cpu_read(c0, c0.program_counter);
        let code = fetched.1;
        let c2 = CpuView {
            remaining_cycles: spec_opcode(code).cycles,
            program_counter: spec_wadd16(fetched.0.program_counter, 1),
            ..fetched.0
        };
        if code == 0x00 {
            (c2, false)
        } else {
            let c3 = spec_exec_op(c2, code);
            let c4 = if c3.program_counter == c2.program_counter {
                CpuView {
                    program_counter: spec_wadd16(c3.program_counter, spec_opcode(code).len - 1),
                    ..c3
                }
            } else {
                c3
            };
            (c4, true)
        }
    }
}

/// The CPU after `fuel` cycles, stopping early at BRK.
pub open spec fn spec_cpu_run(c: CpuView, fuel: nat) -> CpuView
    decreases fuel,
{
    if fuel == 0 {
        c
    } else {
        let stepped = spec_cpu_tick(c);
        if stepped.1 {
            spec_cpu_run(stepped.0, (fuel - 1) as nat)
        } else {
            stepped.0
        }
    }
}

/// The register state `reset` establishes; the program counter comes from
/// the reset vector.
pub open spec fn spec_cpu_reset(c: CpuView) -> CpuView {
    let rd = spec_cpu_read16(c, 0xfffc);
    CpuView {
        register_a: 0,
        register_x: 0,
        register_y: 0,
        stack_pointer: STACK_RESET,
        status: 0b100100,
        program_counter: rd.1,
        remaining_cycles: 0,
        mem: rd.0.mem,
    }
}

/// A program image laid over flat memory at the load address.
pub open spec fn spec_load_bytes(m: Seq<u8>, at: int, p: Seq<u8>) -> Seq<u8> {
    Seq::new(
        m.len(),
        |i: int|
            if at <= i < at + p.len() {
                p[i - at]
            } else {
                m[i]
            },
    )
}

/// The run loop's cycle budget: far beyond any test program, so a program
/// that reaches BRK behaves as if the loop were unbounded.
pub const RUN_FUEL: u64 = 0xffff_ffff;

impl CPU {
    /// Services one interrupt.
    pub(crate) fn interrupt(&mut self, itype: InterruptType)
        requires
            old(self)@.wf(),
        ensures
            final(self)@ == spec_interrupt(old(self)@, itype),
            final(self)@.wf(),
    {
        let pc = self.program_counter;
        self.stack_push_u16(pc);
        let flag = self.status & !(FLAG_BREAK | FLAG_BREAK2);
        self.stack_push(flag);
        self.status = self.status | FLAG_INTERRUPT_DISABLE;
        let cycles: u8 = match itype {
            InterruptType::Nmi => 2,
            InterruptType::Brk => 1,
        };
        self.remaining_cycles = self.remaining_cycles.wrapping_add(cycles);
        let vector: u16 = match itype {
            InterruptType::Nmi => 0xfffa,
            InterruptType::Brk => 0xfffe,
        };
        let target = self.mem_read_u16(vector);
        self.program_counter = target;
        proof {
            assert(self@ =~= spec_interrupt(old(self)@, itype));
        }
    }

    /// Samples and consumes the NMI line.
    fn poll_nmi(&mut self) -> (r: bool)
        requires
            old(self)@.wf(),
        ensures
            final(self)@ == spec_poll_nmi(old(self)@).0,
            r == spec_poll_nmi(old(self)@).1,
            final(self)@.wf(),
    {
        match &mut self.mem {
            CpuMem::Flat(_) => false,
            CpuMem::Bus(bus) => {
                let r = bus.poll_nmi_status();
                proof {
                    assert(self@ =~= spec_poll_nmi(old(self)@).0);
                }
                r
            },
        }
    }

    /// Runs the effect of one decoded opcode.
    fn execute_opcode(&mut self, code: u8)
        requires
            old(self)@.wf(),
        ensures
            final(self)@ == spec_exec_op(old(self)@, code),
            final(self)@.wf(),
    {
        let info = opcode_info(code);
        let mode = info.mode;
        if code < 0x80 {
            self.execute_opcode_lo(code, mode);
        } else if code < 0xc0 {
            self.execute_opcode_mid(code, mode);
        } else {
            self.execute_opcode_top(code, mode);
        }
    }

    /// Dispatch for the opcodes below `$80`.
    #[verifier::rlimit(100)]
    fn execute_opcode_lo(&mut self, code: u8, mode: AddressingMode)
        requires
            old(self)@.wf(),
            code < 0x80,
            mode == spec_opcode(code).mode,
        ensures
            final(self)@ == spec_exec_op(old(self)@, code),
            final(self)@.wf(),
    {
        proof {
            reveal(spec_exec_op);
        }
        match code {
            0x58 => self.set_status_flag(FLAG_INTERRUPT_DISABLE, false),
            0x18 => self.set_status_flag(FLAG_CARRY, false),
            0x38 => self.set_status_flag(FLAG_CARRY, true),
            0x78 => self.set_status_flag(FLAG_INTERRUPT_DISABLE, true),
            0x48 => self.pha(),
            0x68 => self.pla(),
            0x08 => self.php(),
            0x28 => self.plp(),
            0x69 | 0x65 | 0x75 | 0x6d | 0x7d | 0x79 | 0x61 | 0x71 => self.adc(&mode),
            0x29 | 0x25 | 0x35 | 0x2d | 0x3d | 0x39 | 0x21 | 0x31 => self.and(&mode),
            0x49 | 0x45 | 0x55 | 0x4d | 0x5d | 0x59 | 0x41 | 0x51 => self.eor(&mode),
            0x09 | 0x05 | 0x15 | 0x0d | 0x1d | 0x19 | 0x01 | 0x11 => self.ora(&mode),
            0x4a => self.lsr_accumulator(),
            0x46 | 0x56 | 0x4e | 0x5e => {
                self.lsr(&mode);
            },
            0x0a => self.asl_accumulator(),
            0x06 | 0x16 | 0x0e | 0x1e => {
                self.asl(&mode);
            },
            0x2a => self.rol_accumulator(),
            0x26 | 0x36 | 0x2e | 0x3e => {
                self.rol(&mode);
            },
            0x6a => self.ror_accumulator(),
            0x66 | 0x76 | 0x6e | 0x7e => {
                self.ror(&mode);
            },
            0x4c => self.jmp_absolute(),
            0x6c => self.jmp_indirect(),
            0x20 => self.jsr(),
            0x60 => self.rts(),
            0x40 => self.rti(),
            0x70 => {
                let cond = self.status & FLAG_OVERFLOW != 0;
                self.branch(cond);
            },
            0x50 => {
                let cond = self.status & FLAG_OVERFLOW == 0;
                self.branch(cond);
            },
            0x10 => {
                let cond = self.status & FLAG_NEGATIVE == 0;
                self.branch(cond);
            },
            0x30 => {
                let cond = self.status & FLAG_NEGATIVE != 0;
                self.branch(cond);
            },
            0x24 | 0x2c => self.bit(&mode),
            0x04 | 0x44 | 0x64 | 0x14 | 0x34 | 0x54 | 0x74 | 0x0c | 0x1c | 0x3c | 0x5c | 0x7c => self.nop_read(&mode),
            0x07 | 0x17 | 0x0f | 0x1f | 0x1b | 0x03 | 0x13 => self.slo(&mode),
            0x27 | 0x37 | 0x2f | 0x3f | 0x3b | 0x33 | 0x23 => self.rla(&mode),
            0x47 | 0x57 | 0x4f | 0x5f | 0x5b | 0x43 | 0x53 => self.sre(&mode),
            0x67 | 0x77 | 0x6f | 0x7f | 0x7b | 0x63 | 0x73 => self.rra(&mode),
            0x6b => self.arr(&mode),
            0x0b | 0x2b => self.anc(&mode),
            0x4b => self.alr(&mode),
            _ => {
                // The remaining opcodes in this half are NOPs with no
                // memory traffic.
            },
        }
    }

    /// Dispatch for the opcodes in `$80..$BF`.
    #[verifier::rlimit(100)]
    fn execute_opcode_mid(&mut self, code: u8, mode: AddressingMode)
        requires
            old(self)@.wf(),
            0x80 <= code < 0xc0,
            mode == spec_opcode(code).mode,
        ensures
            final(self)@ == spec_exec_op(old(self)@, code),
            final(self)@.wf(),
    {
        proof {
            reveal(spec_exec_op);
        }
        match code {
            0xa9 | 0xa5 | 0xb5 | 0xad | 0xbd | 0xb9 | 0xa1 | 0xb1 => self.lda(&mode),
            0xaa => self.tax(),
            0xb8 => self.set_status_flag(FLAG_OVERFLOW, false),
            0x88 => self.dey(),
            0xb0 => {
                let cond = self.status & FLAG_CARRY != 0;
                self.branch(cond);
            },
            0x90 => {
                let cond = self.status & FLAG_CARRY == 0;
                self.branch(cond);
            },
            0x85 | 0x95 | 0x8d | 0x9d | 0x99 | 0x81 | 0x91 => self.sta(&mode),
            0x86 | 0x96 | 0x8e => self.stx(&mode),
            0x84 | 0x94 | 0x8c => self.sty(&mode),
            0xa2 | 0xa6 | 0xb6 | 0xae | 0xbe => self.ldx(&mode),
            0xa0 | 0xa4 | 0xb4 | 0xac | 0xbc => self.ldy(&mode),
            0xa8 => self.tay(),
            0xba => self.tsx(),
            0x8a => self.txa(),
            0x9a => self.txs(),
            0x98 => self.tya(),
            0xa7 | 0xb7 | 0xaf | 0xbf | 0xa3 | 0xb3 => self.lax(&mode),
            0x87 | 0x97 | 0x8f | 0x83 => self.sax(&mode),
            0xab => self.lxa(&mode),
            0x8b => self.xaa(&mode),
            0xbb => self.las(&mode),
            0x9b => self.tas(),
            0x93 => self.ahx_indirect_y(),
            0x9f => self.ahx_absolute_y(),
            0x9e => self.shx(),
            0x9c => self.shy(),
            _ => {
                // The remaining opcodes in this range are NOPs with no
                // memory traffic.
            },
        }
    }

    /// Dispatch for the opcodes at `$C0` and above.
    #[verifier::rlimit(100)]
    fn execute_opcode_top(&mut self, code: u8, mode: AddressingMode)
        requires
            old(self)@.wf(),
            code >= 0xc0,
            mode == spec_opcode(code).mode,
        ensures
            final(self)@ == spec_exec_op(old(self)@, code),
            final(self)@.wf(),
    {
        proof {
            reveal(spec_exec_op);
        }
        match code {
            0xe8 => self.inx(),
            0xd8 => self.set_status_flag(FLAG_DECIMAL_MODE, false),
            0xf8 => self.set_status_flag(FLAG_DECIMAL_MODE, true),
            0xe9 | 0xe5 | 0xf5 | 0xed | 0xfd | 0xf9 | 0xe1 | 0xf1 => self.sbc(&mode),
            0xe6 | 0xf6 | 0xee | 0xfe => {
                self.inc(&mode);
            },
            0xc8 => self.iny(),
            0xc6 | 0xd6 | 0xce | 0xde => {
                self.dec(&mode);
            },
            0xca => self.dex(),
            0xc9 | 0xc5 | 0xd5 | 0xcd | 0xdd | 0xd9 | 0xc1 | 0xd1 => {
                let a = self.register_a;
                self.compare(&mode, a);
            },
            0xc0 | 0xc4 | 0xcc => {
                let y = self.register_y;
                self.compare(&mode, y);
            },
            0xe0 | 0xe4 | 0xec => {
                let x = self.register_x;
                self.compare(&mode, x);
            },
            0xd0 => {
                let cond = self.status & FLAG_ZERO == 0;
                self.branch(cond);
            },
            0xf0 => {
                let cond = self.status & FLAG_ZERO != 0;
                self.branch(cond);
            },
            0xd4 | 0xf4 | 0xdc | 0xfc => self.nop_read(&mode),
            0xeb => self.unofficial_sbc(&mode),
            0xc7 | 0xd7 | 0xcf | 0xdf | 0xdb | 0xd3 | 0xc3 => self.dcp(&mode),
            0xe7 | 0xf7 | 0xef | 0xff | 0xfb | 0xe3 | 0xf3 => self.isb(&mode),
            0xcb => self.axs(&mode),
            _ => {
                // The remaining opcodes in this range are NOPs with no
                // memory traffic.
            },
        }
    }

    /// The unofficial NOP reads: fetch the operand, charge the cross cycle.
    fn nop_read(&mut self, mode: &AddressingMode)
        requires
            old(self)@.wf(),
        ensures
            final(self)@ == spec_nop_read(old(self)@, *mode),
            final(self)@.wf(),
    {
        let (addr, crossed) = self.get_operand_address(mode);
        let _data = self.mem_read(addr);
        if crossed {
            self.remaining_cycles = self.remaining_cycles.wrapping_add(1);
        }
        proof {
            reveal(spec_nop_read);
            assert(self@ =~= spec_nop_read(old(self)@, *mode));
        }
    }

    /// Processes the next CPU cycle; `Ok(false)` reports that BRK ended the
    /// run.  Every opcode byte decodes to a supported instruction, so the
    /// error variant is never produced.
    #[verifier::rlimit(100)]
    #[verifier::spinoff_prover]
    pub fn tick(&mut self) -> (r: Result<bool, CPUError>)
        requires
            old(self)@.wf(),
        ensures
            final(self)@ == spec_cpu_tick(old(self)@).0,
            r == Ok::<bool, CPUError>(spec_cpu_tick(old(self)@).1),
            final(self)@.wf(),
    {
        if self.remaining_cycles > 0 {
            self.remaining_cycles = self.remaining_cycles - 1;
            proof {
                assert(self@ =~= spec_cpu_tick(old(self)@).0);
            }
            return Ok(true);
        }
        let nmi = self.poll_nmi();
        if nmi {
            self.interrupt(InterruptType::Nmi);
        }
        let pc = self.program_counter;
        let code = self.mem_read(pc);
        let info = opcode_info(code);
        self.remaining_cycles = info.cycles;
        self.program_counter = self.program_counter.wrapping_add(1);
        if code == 0x00 {
            proof {
                assert(self@ =~= spec_cpu_tick(old(self)@).0);
            }
            return Ok(false);
        }
        let pc_state = self.program_counter;
        self.execute_opcode(code);
        if pc_state == self.program_counter {
            self.program_counter = self.program_counter.wrapping_add(info.len.wrapping_sub(1));
        }
        proof {
            assert(self@ =~= spec_cpu_tick(old(self)@).0);
        }
        Ok(true)
    }

    /// Resets registers and loads the program counter from `$FFFC`.
    pub fn reset(&mut self)
        requires
            old(self)@.wf(),
        ensures
            final(self)@ == spec_cpu_reset(old(self)@),
            final(self)@.wf(),
    {
        self.register_a = 0;
        self.register_x = 0;
        self.register_y = 0;
        self.stack_pointer = STACK_RESET;
        self.status = 0b100100;
        let pc = self.mem_read_u16(0xfffc);
        self.program_counter = pc;
        self.remaining_cycles = 0;
        proof {
            assert(self@ =~= spec_cpu_reset(old(self)@));
        }
    }

    /// Copies a program into flat memory at `$8600` and points the reset
    /// vector there.  With a bus connected the copy has nowhere to go (the
    /// window is cartridge ROM) and only the vector write is attempted.
    pub fn load(&mut self, program: Vec<u8>)
        requires
            old(self)@.wf(),
            program.len() <= 0x7a00,
        ensures
            final(self)@ == spec_cpu_write16(
                (CpuView {
                    mem: match old(self)@.mem {
                        CpuMemView::Flat(m) => CpuMemView::Flat(
                            spec_load_bytes(m, 0x8600, program@),
                        ),
                        CpuMemView::Bus(b) => CpuMemView::Bus(b),
                    },
                    ..old(self)@
                }),
                0xfffc,
                0x8600,
            ),
            final(self)@.wf(),
    {
        match &mut self.mem {
            CpuMem::Flat(bytes) => {
                let mut i: usize = 0;
                while i < program.len()
                    invariant
                        program.len() <= 0x7a00,
                        i <= program.len(),
                        bytes.len() == 0x10000,
                        bytes@ == spec_load_bytes(
                            old(self)@.mem->Flat_0,
                            0x8600,
                            program@.take(i as int),
                        ),
                    decreases program.len() - i,
                {
                    bytes[0x8600 + i] = program[i];
                    proof {
                        assert(bytes@ =~= spec_load_bytes(
                            old(self)@.mem->Flat_0,
                            0x8600,
                            program@.take(i + 1),
                        ));
                    }
                    i = i + 1;
                }
                proof {
                    assert(program@.take(program@.len() as int) =~= program@);
                }
            },
            CpuMem::Bus(bus) => {},
        }
        proof {
            assert(self@ =~= CpuView {
                mem: match old(self)@.mem {
                    CpuMemView::Flat(m) => CpuMemView::Flat(spec_load_bytes(m, 0x8600, program@)),
                    CpuMemView::Bus(b) => CpuMemView::Bus(b),
                },
                ..old(self)@
            });
        }
        self.mem_write_u16(0xfffc, 0x8600);
    }

    /// Runs until BRK stops the program (or the cycle budget runs dry).
    pub fn run(&mut self) -> (r: Result<(), CPUError>)
        requires
            old(self)@.wf(),
        ensures
            r == Ok::<(), CPUError>(()),
            final(self)@ == spec_cpu_run(old(self)@, RUN_FUEL as nat),
            final(self)@.wf(),
    {
        let mut fuel: u64 = RUN_FUEL;
        while fuel > 0
            invariant
                self@.wf(),
                spec_cpu_run(self@, fuel as nat) == spec_cpu_run(old(self)@, RUN_FUEL as nat),
            decreases fuel,
        {
            let step = self.tick();
            match step {
                Ok(cont) => {
                    if !cont {
                        return Ok(());
                    }
                },
                Err(e) => {
                    return Err(e);
                },
            }
            fuel = fuel - 1;
        }
        Ok(())
    }

    /// Loads a program, resets, and runs it to BRK.
    pub fn load_and_run(&mut self, program: Vec<u8>) -> (r: Result<(), CPUError>)
        requires
            old(self)@.wf(),
            program.len() <= 0x7a00,
        ensures
            r == Ok::<(), CPUError>(()),
            final(self)@.wf(),
            final(self)@ == spec_cpu_run(
                spec_cpu_reset(
                    spec_cpu_write16(
                        (CpuView {
                            mem: match old(self)@.mem {
                                CpuMemView::Flat(m) => CpuMemView::Flat(
                                    spec_load_bytes(m, 0x8600, program@),
                                ),
                                CpuMemView::Bus(b) => CpuMemView::Bus(b),
                            },
                            ..old(self)@
                        }),
                        0xfffc,
                        0x8600,
                    ),
                ),
                RUN_FUEL as nat,
            ),
    {
        self.load(program);
        self.reset();
        self.run()
    }
}

} // verus!
