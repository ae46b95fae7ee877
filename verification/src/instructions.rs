//! The official 6502 instruction set.
//!
//! Every instruction method follows its spec-level transition function
//! exactly; the transition functions compose operand resolution, the memory
//! reads and writes the instruction performs, and the register and flag
//! updates, including the extra cycle charged when an indexed read crosses a
//! page.

use vstd::prelude::*;
use crate::cpu::{
    CPU, CpuView, spec_cpu_read, spec_cpu_write, spec_cpu_read16, spec_operand_addr,
    spec_stack_push, spec_stack_pop, spec_stack_push16, spec_stack_pop16, spec_update_zn,
    spec_set_flag, spec_wadd8, spec_wadd16, spec_page_cross, spec_mode_addressed,
    FLAG_CARRY, FLAG_ZERO, FLAG_INTERRUPT_DISABLE, FLAG_DECIMAL_MODE, FLAG_BREAK, FLAG_BREAK2,
    FLAG_OVERFLOW, FLAG_NEGATIVE,
};
use crate::opcode::AddressingMode;
use crate::registers::lemma_hi_lo_value;

verus! {

broadcast use crate::cpu::lemma_absolute_addr_frame;

/// TAX.
pub open spec fn spec_tax_of(c: CpuView) -> CpuView {
    CpuView {
        register_x: c.register_a,
        status: spec_update_zn(c.status, c.register_a),
        ..c
    }
}

/// TAY.
pub open spec fn spec_tay_of(c: CpuView) -> CpuView {
    CpuView {
        register_y: c.register_a,
        status: spec_update_zn(c.status, c.register_a),
        ..c
    }
}

/// TSX.
pub open spec fn spec_tsx_of(c: CpuView) -> CpuView {
    CpuView {
        register_x: c.stack_pointer,
        status: spec_update_zn(c.status, c.stack_pointer),
        ..c
    }
}

/// TXA.
pub open spec fn spec_txa_of(c: CpuView) -> CpuView {
    CpuView {
        register_a: c.register_x,
        status: spec_update_zn(c.status, c.register_x),
        ..c
    }
}

/// TYA.
pub open spec fn spec_tya_of(c: CpuView) -> CpuView {
    CpuView {
        register_a: c.register_y,
        status: spec_update_zn(c.status, c.register_y),
        ..c
    }
}

/// INX.
pub open spec fn spec_inx_of(c: CpuView) -> CpuView {
    CpuView {
        register_x: spec_wadd8(c.register_x, 1),
        status: spec_update_zn(c.status, spec_wadd8(c.register_x, 1)),
        ..c
    }
}

/// INY.
pub open spec fn spec_iny_of(c: CpuView) -> CpuView {
    CpuView {
        register_y: spec_wadd8(c.register_y, 1),
        status: spec_update_zn(c.status, spec_wadd8(c.register_y, 1)),
        ..c
    }
}

/// DEX.
pub open spec fn spec_dex_of(c: CpuView) -> CpuView {
    CpuView {
        register_x: spec_wadd8(c.register_x, -1),
        status: spec_update_zn(c.status, spec_wadd8(c.register_x, -1)),
        ..c
    }
}

/// DEY.
pub open spec fn spec_dey_of(c: CpuView) -> CpuView {
    CpuView {
        register_y: spec_wadd8(c.register_y, -1),
        status: spec_update_zn(c.status, spec_wadd8(c.register_y, -1)),
        ..c
    }
}

/// PLA.
pub open spec fn spec_pla_of(c: CpuView) -> CpuView {
    let popped = spec_stack_pop(c);
    CpuView {
        register_a: popped.1,
        status: spec_update_zn(popped.0.status, popped.1),
        ..popped.0
    }
}

/// PLP.
pub open spec fn spec_plp_of(c: CpuView) -> CpuView {
    let popped = spec_stack_pop(c);
    CpuView { status: spec_status_from_stack(popped.1), ..popped.0 }
}

/// A charged extra cycle when an indexed read crossed a page.
pub open spec fn spec_bump_if(c: CpuView, crossed: bool) -> CpuView {
    if crossed {
        CpuView { remaining_cycles: spec_wadd8(c.remaining_cycles, 1), ..c }
    } else {
        c
    }
}

/// A load into A: sets A and refreshes Z and N.
#[verifier::opaque]
pub open spec fn spec_lda(c: CpuView, mode: AddressingMode) -> CpuView {
    let op = spec_operand_addr(c, mode);
    let rd = spec_cpu_read(op.0, op.1);
    let c2 = CpuView { register_a: rd.1, status: spec_update_zn(rd.0.status, rd.1), ..rd.0 };
    spec_bump_if(c2, op.2)
}

#[verifier::opaque]
pub open spec fn spec_ldx(c: CpuView, mode: AddressingMode) -> CpuView {
    let op = spec_operand_addr(c, mode);
    let rd = spec_cpu_read(op.0, op.1);
    let c2 = CpuView { register_x: rd.1, status: spec_update_zn(rd.0.status, rd.1), ..rd.0 };
    spec_bump_if(c2, op.2)
}

#[verifier::opaque]
pub open spec fn spec_ldy(c: CpuView, mode: AddressingMode) -> CpuView {
    let op = spec_operand_addr(c, mode);
    let rd = spec_cpu_read(op.0, op.1);
    let c2 = CpuView { register_y: rd.1, status: spec_update_zn(rd.0.status, rd.1), ..rd.0 };
    spec_bump_if(c2, op.2)
}

/// A store of a register; stores never charge the page-cross cycle.
#[verifier::opaque]
pub open spec fn spec_sta(c: CpuView, mode: AddressingMode) -> CpuView {
    let op = spec_operand_addr(c, mode);
    spec_cpu_write(op.0, op.1, c.register_a)
}

#[verifier::opaque]
pub open spec fn spec_stx(c: CpuView, mode: AddressingMode) -> CpuView {
    let op = spec_operand_addr(c, mode);
    spec_cpu_write(op.0, op.1, c.register_x)
}

#[verifier::opaque]
pub open spec fn spec_sty(c: CpuView, mode: AddressingMode) -> CpuView {
    let op = spec_operand_addr(c, mode);
    spec_cpu_write(op.0, op.1, c.register_y)
}

/// Add with carry into A: C from the 9th bit, V by the canonical
/// `(m ^ r) & (r ^ a) & 0x80` rule, then Z and N from the result.
pub open spec fn spec_add_to_a(c: CpuView, data: u8) -> CpuView {
    let sum = c.register_a + data + (if c.status & FLAG_CARRY != 0 {
        1int
    } else {
        0int
    });
    let carry = sum > 0xff;
    let result = (sum % 256) as u8;
    let s1 = spec_set_flag(c.status, FLAG_CARRY, carry);
    let s2 = spec_set_flag(s1, FLAG_OVERFLOW, (data ^ result) & (result ^ c.register_a) & 0x80 != 0);
    CpuView { register_a: result, status: spec_update_zn(s2, result), ..c }
}

#[verifier::opaque]
pub open spec fn spec_adc(c: CpuView, mode: AddressingMode) -> CpuView {
    let op = spec_operand_addr(c, mode);
    let rd = spec_cpu_read(op.0, op.1);
    spec_bump_if(spec_add_to_a(rd.0, rd.1), op.2)
}

/// Subtract borrows through the carry: add the one's complement.
#[verifier::opaque]
pub open spec fn spec_sbc(c: CpuView, mode: AddressingMode) -> CpuView {
    let op = spec_operand_addr(c, mode);
    let rd = spec_cpu_read(op.0, op.1);
    spec_bump_if(spec_add_to_a(rd.0, rd.1 ^ 0xff), op.2)
}

#[verifier::opaque]
pub open spec fn spec_and(c: CpuView, mode: AddressingMode) -> CpuView {
    let op = spec_operand_addr(c, mode);
    let rd = spec_cpu_read(op.0, op.1);
    let a = rd.1 & c.register_a;
    spec_bump_if(CpuView { register_a: a, status: spec_update_zn(rd.0.status, a), ..rd.0 }, op.2)
}

#[verifier::opaque]
pub open spec fn spec_eor(c: CpuView, mode: AddressingMode) -> CpuView {
    let op = spec_operand_addr(c, mode);
    let rd = spec_cpu_read(op.0, op.1);
    let a = rd.1 ^ c.register_a;
    spec_bump_if(CpuView { register_a: a, status: spec_update_zn(rd.0.status, a), ..rd.0 }, op.2)
}

#[verifier::opaque]
pub open spec fn spec_ora(c: CpuView, mode: AddressingMode) -> CpuView {
    let op = spec_operand_addr(c, mode);
    let rd = spec_cpu_read(op.0, op.1);
    let a = rd.1 | c.register_a;
    spec_bump_if(CpuView { register_a: a, status: spec_update_zn(rd.0.status, a), ..rd.0 }, op.2)
}

/// Left shift of the accumulator: C takes the bit shifted out.
pub open spec fn spec_asl_acc(c: CpuView) -> CpuView {
    let data = c.register_a;
    let s1 = spec_set_flag(c.status, FLAG_CARRY, data >> 7 == 1);
    let nd = data << 1;
    CpuView { register_a: nd, status: spec_update_zn(s1, nd), ..c }
}

/// Left shift in memory; hands the shifted byte back.
#[verifier::opaque]
pub open spec fn spec_asl_mem(c: CpuView, mode: AddressingMode) -> (CpuView, u8) {
    let op = spec_operand_addr(c, mode);
    let rd = spec_cpu_read(op.0, op.1);
    let data = rd.1;
    let s1 = spec_set_flag(rd.0.status, FLAG_CARRY, data >> 7 == 1);
    let nd = data << 1;
    let c3 = spec_cpu_write(CpuView { status: s1, ..rd.0 }, op.1, nd);
    (CpuView { status: spec_update_zn(c3.status, nd), ..c3 }, nd)
}

pub open spec fn spec_lsr_acc(c: CpuView) -> CpuView {
    let data = c.register_a;
    let s1 = spec_set_flag(c.status, FLAG_CARRY, data & 1 == 1);
    let nd = data >> 1;
    CpuView { register_a: nd, status: spec_update_zn(s1, nd), ..c }
}

#[verifier::opaque]
pub open spec fn spec_lsr_mem(c: CpuView, mode: AddressingMode) -> (CpuView, u8) {
    let op = spec_operand_addr(c, mode);
    let rd = spec_cpu_read(op.0, op.1);
    let data = rd.1;
    let s1 = spec_set_flag(rd.0.status, FLAG_CARRY, data & 1 == 1);
    let nd = data >> 1;
    let c3 = spec_cpu_write(CpuView { status: s1, ..rd.0 }, op.1, nd);
    (CpuView { status: spec_update_zn(c3.status, nd), ..c3 }, nd)
}

/// Rotate left through the carry.
pub open spec fn spec_rol_acc(c: CpuView) -> CpuView {
    let data = c.register_a;
    let old_carry = c.status & FLAG_CARRY != 0;
    let s1 = spec_set_flag(c.status, FLAG_CARRY, data >> 7 == 1);
    let nd = if old_carry {
        (data << 1) | 1
    } else {
        data << 1
    };
    CpuView { register_a: nd, status: spec_update_zn(s1, nd), ..c }
}

#[verifier::opaque]
pub open spec fn spec_rol_mem(c: CpuView, mode: AddressingMode) -> (CpuView, u8) {
    let op = spec_operand_addr(c, mode);
    let rd = spec_cpu_read(op.0, op.1);
    let data = rd.1;
    let old_carry = rd.0.status & FLAG_CARRY != 0;
    let s1 = spec_set_flag(rd.0.status, FLAG_CARRY, data >> 7 == 1);
    let nd = if old_carry {
        (data << 1) | 1
    } else {
        data << 1
    };
    let c3 = spec_cpu_write(CpuView { status: s1, ..rd.0 }, op.1, nd);
    (CpuView { status: spec_update_zn(c3.status, nd), ..c3 }, nd)
}

/// Rotate right through the carry.
pub open spec fn spec_ror_acc(c: CpuView) -> CpuView {
    let data = c.register_a;
    let old_carry = c.status & FLAG_CARRY != 0;
    let s1 = spec_set_flag(c.status, FLAG_CARRY, data & 1 == 1);
    let nd = if old_carry {
        (data >> 1) | 0b1000_0000
    } else {
        data >> 1
    };
    CpuView { register_a: nd, status: spec_update_zn(s1, nd), ..c }
}

#[verifier::opaque]
pub open spec fn spec_ror_mem(c: CpuView, mode: AddressingMode) -> (CpuView, u8) {
    let op = spec_operand_addr(c, mode);
    let rd = spec_cpu_read(op.0, op.1);
    let data = rd.1;
    let old_carry = rd.0.status & FLAG_CARRY != 0;
    let s1 = spec_set_flag(rd.0.status, FLAG_CARRY, data & 1 == 1);
    let nd = if old_carry {
        (data >> 1) | 0b1000_0000
    } else {
        data >> 1
    };
    let c3 = spec_cpu_write(CpuView { status: s1, ..rd.0 }, op.1, nd);
    (CpuView { status: spec_update_zn(c3.status, nd), ..c3 }, nd)
}

/// Increment in memory; hands the new byte back.
#[verifier::opaque]
pub open spec fn spec_inc_mem(c: CpuView, mode: AddressingMode) -> (CpuView, u8) {
    let op = spec_operand_addr(c, mode);
    let rd = spec_cpu_read(op.0, op.1);
    let nd = spec_wadd8(rd.1, 1);
    let c3 = spec_cpu_write(rd.0, op.1, nd);
    (CpuView { status: spec_update_zn(c3.status, nd), ..c3 }, nd)
}

#[verifier::opaque]
pub open spec fn spec_dec_mem(c: CpuView, mode: AddressingMode) -> (CpuView, u8) {
    let op = spec_operand_addr(c, mode);
    let rd = spec_cpu_read(op.0, op.1);
    let nd = spec_wadd8(rd.1, -1);
    let c3 = spec_cpu_write(rd.0, op.1, nd);
    (CpuView { status: spec_update_zn(c3.status, nd), ..c3 }, nd)
}

/// A comparison: C when the register is at least the operand, Z and N from
/// the wrapped difference.
#[verifier::opaque]
pub open spec fn spec_compare(c: CpuView, mode: AddressingMode, with: u8) -> CpuView {
    let op = spec_operand_addr(c, mode);
    let rd = spec_cpu_read(op.0, op.1);
    let s1 = spec_set_flag(rd.0.status, FLAG_CARRY, rd.1 <= with);
    let s2 = spec_update_zn(s1, spec_wadd8(with, -(rd.1 as int)));
    spec_bump_if(CpuView { status: s2, ..rd.0 }, op.2)
}

/// A relative offset sign-extended to sixteen bits.
pub open spec fn spec_sign_ext(j: u8) -> u16 {
    if j >= 0x80 {
        (j + 0xff00) as u16
    } else {
        j as u16
    }
}

/// A conditional branch: one extra cycle when taken, another when the target
/// lies on a different page than the following instruction.
#[verifier::opaque]
pub open spec fn spec_branch(c: CpuView, condition: bool) -> CpuView {
    if condition {
        let bumped = CpuView { remaining_cycles: spec_wadd8(c.remaining_cycles, 1), ..c };
        let rd = spec_cpu_read(bumped, bumped.program_counter);
        let after = spec_wadd16(rd.0.program_counter, 1);
        let target = spec_wadd16(after, spec_sign_ext(rd.1) as int);
        let extra = if spec_page_cross(after, target) {
            CpuView { remaining_cycles: spec_wadd8(rd.0.remaining_cycles, 1), ..rd.0 }
        } else {
            rd.0
        };
        CpuView { program_counter: target, ..extra }
    } else {
        c
    }
}

/// BIT: Z from the masked accumulator, N and V copied from the operand.
#[verifier::opaque]
pub open spec fn spec_bit(c: CpuView, mode: AddressingMode) -> CpuView {
    let op = spec_operand_addr(c, mode);
    let rd = spec_cpu_read(op.0, op.1);
    let s1 = spec_set_flag(rd.0.status, FLAG_ZERO, c.register_a & rd.1 == 0);
    let s2 = spec_set_flag(s1, FLAG_NEGATIVE, rd.1 & 0b1000_0000 > 0);
    let s3 = spec_set_flag(s2, FLAG_OVERFLOW, rd.1 & 0b0100_0000 > 0);
    CpuView { status: s3, ..rd.0 }
}

/// JMP absolute.
#[verifier::opaque]
pub open spec fn spec_jmp_absolute(c: CpuView) -> CpuView {
    let rd = spec_cpu_read16(c, c.program_counter);
    CpuView { program_counter: rd.1, ..rd.0 }
}

/// JMP indirect, reproducing the page-wrap bug: a pointer ending in `$FF`
/// takes its high byte from the start of the same page.
#[verifier::opaque]
pub open spec fn spec_jmp_indirect(c: CpuView) -> CpuView {
    let rd = spec_cpu_read16(c, c.program_counter);
    let ptr = rd.1;
    if ptr & 0x00ff == 0x00ff {
        let lo = spec_cpu_read(rd.0, ptr);
        let hi = spec_cpu_read(lo.0, ptr & 0xff00);
        CpuView { program_counter: (hi.1 * 256 + lo.1) as u16, ..hi.0 }
    } else {
        let t = spec_cpu_read16(rd.0, ptr);
        CpuView { program_counter: t.1, ..t.0 }
    }
}

/// JSR: the address of the last operand byte goes onto the stack.
#[verifier::opaque]
pub open spec fn spec_jsr(c: CpuView) -> CpuView {
    let pushed = spec_stack_push16(c, spec_wadd16(c.program_counter, 1));
    let rd = spec_cpu_read16(pushed, pushed.program_counter);
    CpuView { program_counter: rd.1, ..rd.0 }
}

/// RTS: the popped address plus one.
#[verifier::opaque]
pub open spec fn spec_rts(c: CpuView) -> CpuView {
    let popped = spec_stack_pop16(c);
    CpuView { program_counter: spec_wadd16(popped.1, 1), ..popped.0 }
}

/// Status as it returns from the stack: B cleared, B2 set.
pub open spec fn spec_status_from_stack(v: u8) -> u8 {
    (v & !FLAG_BREAK) | FLAG_BREAK2
}

/// RTI: status first, then the return address, without the JSR adjustment.
#[verifier::opaque]
pub open spec fn spec_rti(c: CpuView) -> CpuView {
    let st = spec_stack_pop(c);
    let c1 = CpuView { status: spec_status_from_stack(st.1), ..st.0 };
    let pc = spec_stack_pop16(c1);
    CpuView { program_counter: pc.1, ..pc.0 }
}

impl CPU {
    pub(crate) fn lda(&mut self, mode: &AddressingMode)
        requires
            old(self)@.wf(),
        ensures
            final(self)@ == spec_lda(old(self)@, *mode),
            final(self)@.wf(),
    {
        let (addr, crossed) = self.get_operand_address(mode);
        let value = self.mem_read(addr);
        self.register_a = value;
        let a = self.register_a;
        self.update_zero_and_negative_flags(a);
        if crossed {
            self.remaining_cycles = self.remaining_cycles.wrapping_add(1);
        }
        proof {
            reveal(spec_lda);
            assert(self@ =~= spec_lda(old(self)@, *mode));
        }
    }

    pub(crate) fn ldx(&mut self, mode: &AddressingMode)
        requires
            old(self)@.wf(),
        ensures
            final(self)@ == spec_ldx(old(self)@, *mode),
            final(self)@.wf(),
    {
        let (addr, crossed) = self.get_operand_address(mode);
        let value = self.mem_read(addr);
        self.register_x = value;
        let x = self.register_x;
        self.update_zero_and_negative_flags(x);
        if crossed {
            self.remaining_cycles = self.remaining_cycles.wrapping_add(1);
        }
        proof {
            reveal(spec_ldx);
            assert(self@ =~= spec_ldx(old(self)@, *mode));
        }
    }

    pub(crate) fn ldy(&mut self, mode: &AddressingMode)
        requires
            old(self)@.wf(),
        ensures
            final(self)@ == spec_ldy(old(self)@, *mode),
            final(self)@.wf(),
    {
        let (addr, crossed) = self.get_operand_address(mode);
        let value = self.mem_read(addr);
        self.register_y = value;
        let y = self.register_y;
        self.update_zero_and_negative_flags(y);
        if crossed {
            self.remaining_cycles = self.remaining_cycles.wrapping_add(1);
        }
        proof {
            reveal(spec_ldy);
            assert(self@ =~= spec_ldy(old(self)@, *mode));
        }
    }

    pub(crate) fn sta(&mut self, mode: &AddressingMode)
        requires
            old(self)@.wf(),
        ensures
            final(self)@ == spec_sta(old(self)@, *mode),
            final(self)@.wf(),
    {
        let (addr, _) = self.get_operand_address(mode);
        let a = self.register_a;
        self.mem_write(addr, a);
        proof {
            reveal(spec_sta);
            assert(self@ =~= spec_sta(old(self)@, *mode));
        }
    }

    pub(crate) fn stx(&mut self, mode: &AddressingMode)
        requires
            old(self)@.wf(),
        ensures
            final(self)@ == spec_stx(old(self)@, *mode),
            final(self)@.wf(),
    {
        let (addr, _) = self.get_operand_address(mode);
        let x = self.register_x;
        self.mem_write(addr, x);
        proof {
            reveal(spec_stx);
            assert(self@ =~= spec_stx(old(self)@, *mode));
        }
    }

    pub(crate) fn sty(&mut self, mode: &AddressingMode)
        requires
            old(self)@.wf(),
        ensures
            final(self)@ == spec_sty(old(self)@, *mode),
            final(self)@.wf(),
    {
        let (addr, _) = self.get_operand_address(mode);
        let y = self.register_y;
        self.mem_write(addr, y);
        proof {
            reveal(spec_sty);
            assert(self@ =~= spec_sty(old(self)@, *mode));
        }
    }

    /// Adds into A with carry, setting C, V, Z and N.
    pub(crate) fn add_to_register_a(&mut self, data: u8)
        ensures
            final(self)@ == spec_add_to_a(old(self)@, data),
    {
        let carry_in: u16 = if self.status & FLAG_CARRY != 0 {
            1
        } else {
            0
        };
        let sum: u16 = self.register_a as u16 + data as u16 + carry_in;
        let carry = sum > 0xff;
        let result = (sum % 256) as u8;
        if carry {
            self.status = self.status | FLAG_CARRY;
        } else {
            self.status = self.status & !FLAG_CARRY;
        }
        if (data ^ result) & (result ^ self.register_a) & 0x80 != 0 {
            self.status = self.status | FLAG_OVERFLOW;
        } else {
            self.status = self.status & !FLAG_OVERFLOW;
        }
        self.register_a = result;
        self.update_zero_and_negative_flags(result);
        proof {
            assert(self@ =~= spec_add_to_a(old(self)@, data));
        }
    }

    /// Subtracts from A by adding the one's complement.
    pub(crate) fn sub_from_register_a(&mut self, data: u8)
        ensures
            final(self)@ == spec_add_to_a(old(self)@, data ^ 0xff),
    {
        self.add_to_register_a(data ^ 0xff);
    }

    pub(crate) fn adc(&mut self, mode: &AddressingMode)
        requires
            old(self)@.wf(),
        ensures
            final(self)@ == spec_adc(old(self)@, *mode),
            final(self)@.wf(),
    {
        let (addr, crossed) = self.get_operand_address(mode);
        let value = self.mem_read(addr);
        self.add_to_register_a(value);
        if crossed {
            self.remaining_cycles = self.remaining_cycles.wrapping_add(1);
        }
        proof {
            reveal(spec_adc);
            assert(self@ =~= spec_adc(old(self)@, *mode));
        }
    }

    pub(crate) fn sbc(&mut self, mode: &AddressingMode)
        requires
            old(self)@.wf(),
        ensures
            final(self)@ == spec_sbc(old(self)@, *mode),
            final(self)@.wf(),
    {
        let (addr, crossed) = self.get_operand_address(mode);
        let value = self.mem_read(addr);
        self.sub_from_register_a(value);
        if crossed {
            self.remaining_cycles = self.remaining_cycles.wrapping_add(1);
        }
        proof {
            reveal(spec_sbc);
            assert(self@ =~= spec_sbc(old(self)@, *mode));
        }
    }

    pub(crate) fn and(&mut self, mode: &AddressingMode)
        requires
            old(self)@.wf(),
        ensures
            final(self)@ == spec_and(old(self)@, *mode),
            final(self)@.wf(),
    {
        let (addr, crossed) = self.get_operand_address(mode);
        let value = self.mem_read(addr);
        self.register_a = value & self.register_a;
        let a = self.register_a;
        self.update_zero_and_negative_flags(a);
        if crossed {
            self.remaining_cycles = self.remaining_cycles.wrapping_add(1);
        }
        proof {
            reveal(spec_and);
            assert(self@ =~= spec_and(old(self)@, *mode));
        }
    }

    pub(crate) fn eor(&mut self, mode: &AddressingMode)
        requires
            old(self)@.wf(),
        ensures
            final(self)@ == spec_eor(old(self)@, *mode),
            final(self)@.wf(),
    {
        let (addr, crossed) = self.get_operand_address(mode);
        let value = self.mem_read(addr);
        self.register_a = value ^ self.register_a;
        let a = self.register_a;
        self.update_zero_and_negative_flags(a);
        if crossed {
            self.remaining_cycles = self.remaining_cycles.wrapping_add(1);
        }
        proof {
            reveal(spec_eor);
            assert(self@ =~= spec_eor(old(self)@, *mode));
        }
    }

    pub(crate) fn ora(&mut self, mode: &AddressingMode)
        requires
            old(self)@.wf(),
        ensures
            final(self)@ == spec_ora(old(self)@, *mode),
            final(self)@.wf(),
    {
        let (addr, crossed) = self.get_operand_address(mode);
        let value = self.mem_read(addr);
        self.register_a = value | self.register_a;
        let a = self.register_a;
        self.update_zero_and_negative_flags(a);
        if crossed {
            self.remaining_cycles = self.remaining_cycles.wrapping_add(1);
        }
        proof {
            reveal(spec_ora);
            assert(self@ =~= spec_ora(old(self)@, *mode));
        }
    }

    pub(crate) fn asl_accumulator(&mut self)
        ensures
            final(self)@ == spec_asl_acc(old(self)@),
    {
        let data = self.register_a;
        if data >> 7 == 1 {
            self.status = self.status | FLAG_CARRY;
        } else {
            self.status = self.status & !FLAG_CARRY;
        }
        self.register_a = data << 1;
        let a = self.register_a;
        self.update_zero_and_negative_flags(a);
        proof {
            assert(self@ =~= spec_asl_acc(old(self)@));
        }
    }

    pub(crate) fn asl(&mut self, mode: &AddressingMode) -> (r: u8)
        requires
            old(self)@.wf(),
        ensures
            final(self)@ == spec_asl_mem(old(self)@, *mode).0,
            r == spec_asl_mem(old(self)@, *mode).1,
            final(self)@.wf(),
    {
        let (addr, _) = self.get_operand_address(mode);
        let data = self.mem_read(addr);
        if data >> 7 == 1 {
            self.status = self.status | FLAG_CARRY;
        } else {
            self.status = self.status & !FLAG_CARRY;
        }
        let nd = data << 1;
        self.mem_write(addr, nd);
        self.update_zero_and_negative_flags(nd);
        proof {
            reveal(spec_asl_mem);
            assert(self@ =~= spec_asl_mem(old(self)@, *mode).0);
        }
        nd
    }

    pub(crate) fn lsr_accumulator(&mut self)
        ensures
            final(self)@ == spec_lsr_acc(old(self)@),
    {
        let data = self.register_a;
        if data & 1 == 1 {
            self.status = self.status | FLAG_CARRY;
        } else {
            self.status = self.status & !FLAG_CARRY;
        }
        self.register_a = data >> 1;
        let a = self.register_a;
        self.update_zero_and_negative_flags(a);
        proof {
            assert(self@ =~= spec_lsr_acc(old(self)@));
        }
    }

    pub(crate) fn lsr(&mut self, mode: &AddressingMode) -> (r: u8)
        requires
            old(self)@.wf(),
        ensures
            final(self)@ == spec_lsr_mem(old(self)@, *mode).0,
            r == spec_lsr_mem(old(self)@, *mode).1,
            final(self)@.wf(),
    {
        let (addr, _) = self.get_operand_address(mode);
        let data = self.mem_read(addr);
        if data & 1 == 1 {
            self.status = self.status | FLAG_CARRY;
        } else {
            self.status = self.status & !FLAG_CARRY;
        }
        let nd = data >> 1;
        self.mem_write(addr, nd);
        self.update_zero_and_negative_flags(nd);
        proof {
            reveal(spec_lsr_mem);
            assert(self@ =~= spec_lsr_mem(old(self)@, *mode).0);
        }
        nd
    }

    pub(crate) fn rol_accumulator(&mut self)
        ensures
            final(self)@ == spec_rol_acc(old(self)@),
    {
        let data = self.register_a;
        let old_carry = self.status & FLAG_CARRY != 0;
        if data >> 7 == 1 {
            self.status = self.status | FLAG_CARRY;
        } else {
            self.status = self.status & !FLAG_CARRY;
        }
        let nd = if old_carry {
            (data << 1) | 1
        } else {
            data << 1
        };
        self.register_a = nd;
        self.update_zero_and_negative_flags(nd);
        proof {
            assert(self@ =~= spec_rol_acc(old(self)@));
        }
    }

    pub(crate) fn rol(&mut self, mode: &AddressingMode) -> (r: u8)
        requires
            old(self)@.wf(),
        ensures
            final(self)@ == spec_rol_mem(old(self)@, *mode).0,
            r == spec_rol_mem(old(self)@, *mode).1,
            final(self)@.wf(),
    {
        let (addr, _) = self.get_operand_address(mode);
        let data = self.mem_read(addr);
        let old_carry = self.status & FLAG_CARRY != 0;
        if data >> 7 == 1 {
            self.status = self.status | FLAG_CARRY;
        } else {
            self.status = self.status & !FLAG_CARRY;
        }
        let nd = if old_carry {
            (data << 1) | 1
        } else {
            data << 1
        };
        self.mem_write(addr, nd);
        self.update_zero_and_negative_flags(nd);
        proof {
            reveal(spec_rol_mem);
            assert(self@ =~= spec_rol_mem(old(self)@, *mode).0);
        }
        nd
    }

    pub(crate) fn ror_accumulator(&mut self)
        ensures
            final(self)@ == spec_ror_acc(old(self)@),
    {
        let data = self.register_a;
        let old_carry = self.status & FLAG_CARRY != 0;
        if data & 1 == 1 {
            self.status = self.status | FLAG_CARRY;
        } else {
            self.status = self.status & !FLAG_CARRY;
        }
        let nd = if old_carry {
            (data >> 1) | 0b1000_0000
        } else {
            data >> 1
        };
        self.register_a = nd;
        self.update_zero_and_negative_flags(nd);
        proof {
            assert(self@ =~= spec_ror_acc(old(self)@));
        }
    }

    pub(crate) fn ror(&mut self, mode: &AddressingMode) -> (r: u8)
        requires
            old(self)@.wf(),
        ensures
            final(self)@ == spec_ror_mem(old(self)@, *mode).0,
            r == spec_ror_mem(old(self)@, *mode).1,
            final(self)@.wf(),
    {
        let (addr, _) = self.get_operand_address(mode);
        let data = self.mem_read(addr);
        let old_carry = self.status & FLAG_CARRY != 0;
        if data & 1 == 1 {
            self.status = self.status | FLAG_CARRY;
        } else {
            self.status = self.status & !FLAG_CARRY;
        }
        let nd = if old_carry {
            (data >> 1) | 0b1000_0000
        } else {
            data >> 1
        };
        self.mem_write(addr, nd);
        self.update_zero_and_negative_flags(nd);
        proof {
            reveal(spec_ror_mem);
            assert(self@ =~= spec_ror_mem(old(self)@, *mode).0);
        }
        nd
    }

    pub(crate) fn inc(&mut self, mode: &AddressingMode) -> (r: u8)
        requires
            old(self)@.wf(),
        ensures
            final(self)@ == spec_inc_mem(old(self)@, *mode).0,
            r == spec_inc_mem(old(self)@, *mode).1,
            final(self)@.wf(),
    {
        let (addr, _) = self.get_operand_address(mode);
        let data = self.mem_read(addr);
        let nd = data.wrapping_add(1);
        self.mem_write(addr, nd);
        self.update_zero_and_negative_flags(nd);
        proof {
            reveal(spec_inc_mem);
            assert(self@ =~= spec_inc_mem(old(self)@, *mode).0);
        }
        nd
    }

    pub(crate) fn dec(&mut self, mode: &AddressingMode) -> (r: u8)
        requires
            old(self)@.wf(),
        ensures
            final(self)@ == spec_dec_mem(old(self)@, *mode).0,
            r == spec_dec_mem(old(self)@, *mode).1,
            final(self)@.wf(),
    {
        let (addr, _) = self.get_operand_address(mode);
        let data = self.mem_read(addr);
        let nd = data.wrapping_sub(1);
        self.mem_write(addr, nd);
        self.update_zero_and_negative_flags(nd);
        proof {
            reveal(spec_dec_mem);
            assert(self@ =~= spec_dec_mem(old(self)@, *mode).0);
        }
        nd
    }

    pub(crate) fn compare(&mut self, mode: &AddressingMode, compare_with: u8)
        requires
            old(self)@.wf(),
        ensures
            final(self)@ == spec_compare(old(self)@, *mode, compare_with),
            final(self)@.wf(),
    {
        let (addr, crossed) = self.get_operand_address(mode);
        let data = self.mem_read(addr);
        if data <= compare_with {
            self.status = self.status | FLAG_CARRY;
        } else {
            self.status = self.status & !FLAG_CARRY;
        }
        self.update_zero_and_negative_flags(compare_with.wrapping_sub(data));
        if crossed {
            self.remaining_cycles = self.remaining_cycles.wrapping_add(1);
        }
        proof {
            reveal(spec_compare);
            assert(self@ =~= spec_compare(old(self)@, *mode, compare_with));
        }
    }

    pub(crate) fn branch(&mut self, condition: bool)
        requires
            old(self)@.wf(),
        ensures
            final(self)@ == spec_branch(old(self)@, condition),
            final(self)@.wf(),
    {
        if condition {
            self.remaining_cycles = self.remaining_cycles.wrapping_add(1);
            let pc = self.program_counter;
            let jump = self.mem_read(pc);
            let after = pc.wrapping_add(1);
            let offset: u16 = if jump >= 0x80 {
                (jump as u16) + 0xff00
            } else {
                jump as u16
            };
            let jump_addr = after.wrapping_add(offset);
            if after & 0xff00 != jump_addr & 0xff00 {
                self.remaining_cycles = self.remaining_cycles.wrapping_add(1);
            }
            self.program_counter = jump_addr;
        }
        proof {
            reveal(spec_branch);
            assert(self@ =~= spec_branch(old(self)@, condition));
        }
    }

    pub(crate) fn bit(&mut self, mode: &AddressingMode)
        requires
            old(self)@.wf(),
        ensures
            final(self)@ == spec_bit(old(self)@, *mode),
            final(self)@.wf(),
    {
        let (addr, _) = self.get_operand_address(mode);
        let data = self.mem_read(addr);
        if self.register_a & data == 0 {
            self.status = self.status | FLAG_ZERO;
        } else {
            self.status = self.status & !FLAG_ZERO;
        }
        if data & 0b1000_0000 > 0 {
            self.status = self.status | FLAG_NEGATIVE;
        } else {
            self.status = self.status & !FLAG_NEGATIVE;
        }
        if data & 0b0100_0000 > 0 {
            self.status = self.status | FLAG_OVERFLOW;
        } else {
            self.status = self.status & !FLAG_OVERFLOW;
        }
        proof {
            reveal(spec_bit);
            assert(self@ =~= spec_bit(old(self)@, *mode));
        }
    }

    pub(crate) fn jmp_absolute(&mut self)
        requires
            old(self)@.wf(),
        ensures
            final(self)@ == spec_jmp_absolute(old(self)@),
            final(self)@.wf(),
    {
        let pc = self.program_counter;
        let target = self.mem_read_u16(pc);
        self.program_counter = target;
        proof {
            reveal(spec_jmp_absolute);
            assert(self@ =~= spec_jmp_absolute(old(self)@));
        }
    }

    pub(crate) fn jmp_indirect(&mut self)
        requires
            old(self)@.wf(),
        ensures
            final(self)@ == spec_jmp_indirect(old(self)@),
            final(self)@.wf(),
    {
        let pc = self.program_counter;
        let mem_address = self.mem_read_u16(pc);
        let indirect_ref: u16 = if mem_address & 0x00ff == 0x00ff {
            let lo = self.mem_read(mem_address);
            let hi = self.mem_read(mem_address & 0xff00);
            proof {
                lemma_hi_lo_value(hi, lo);
            }
            ((hi as u16) << 8) | (lo as u16)
        } else {
            self.mem_read_u16(mem_address)
        };
        self.program_counter = indirect_ref;
        proof {
            reveal(spec_jmp_indirect);
            assert(self@ =~= spec_jmp_indirect(old(self)@));
        }
    }

    pub(crate) fn jsr(&mut self)
        requires
            old(self)@.wf(),
        ensures
            final(self)@ == spec_jsr(old(self)@),
            final(self)@.wf(),
    {
        let pc = self.program_counter;
        self.stack_push_u16(pc.wrapping_add(1));
        let pc2 = self.program_counter;
        let target = self.mem_read_u16(pc2);
        self.program_counter = target;
        proof {
            reveal(spec_jsr);
            assert(self@ =~= spec_jsr(old(self)@));
        }
    }

    pub(crate) fn rts(&mut self)
        requires
            old(self)@.wf(),
        ensures
            final(self)@ == spec_rts(old(self)@),
            final(self)@.wf(),
    {
        let addr = self.stack_pop_u16();
        self.program_counter = addr.wrapping_add(1);
        proof {
            reveal(spec_rts);
            assert(self@ =~= spec_rts(old(self)@));
        }
    }

    pub(crate) fn rti(&mut self)
        requires
            old(self)@.wf(),
        ensures
            final(self)@ == spec_rti(old(self)@),
            final(self)@.wf(),
    {
        let st = self.stack_pop();
        self.status = (st & !FLAG_BREAK) | FLAG_BREAK2;
        let pc = self.stack_pop_u16();
        self.program_counter = pc;
        proof {
            reveal(spec_rti);
            assert(self@ =~= spec_rti(old(self)@));
        }
    }

    pub(crate) fn tax(&mut self)
        ensures
            final(self)@ == (CpuView {
                register_x: old(self)@.register_a,
                status: spec_update_zn(old(self)@.status, old(self)@.register_a),
                ..old(self)@
            }),
    {
        self.register_x = self.register_a;
        let x = self.register_x;
        self.update_zero_and_negative_flags(x);
        proof {
            assert(self@ =~= CpuView {
                register_x: old(self)@.register_a,
                status: spec_update_zn(old(self)@.status, old(self)@.register_a),
                ..old(self)@
            });
        }
    }

    pub(crate) fn tay(&mut self)
        ensures
            final(self)@ == (CpuView {
                register_y: old(self)@.register_a,
                status: spec_update_zn(old(self)@.status, old(self)@.register_a),
                ..old(self)@
            }),
    {
        self.register_y = self.register_a;
        let y = self.register_y;
        self.update_zero_and_negative_flags(y);
        proof {
            assert(self@ =~= CpuView {
                register_y: old(self)@.register_a,
                status: spec_update_zn(old(self)@.status, old(self)@.register_a),
                ..old(self)@
            });
        }
    }

    pub(crate) fn tsx(&mut self)
        ensures
            final(self)@ == (CpuView {
                register_x: old(self)@.stack_pointer,
                status: spec_update_zn(old(self)@.status, old(self)@.stack_pointer),
                ..old(self)@
            }),
    {
        self.register_x = self.stack_pointer;
        let x = self.register_x;
        self.update_zero_and_negative_flags(x);
        proof {
            assert(self@ =~= CpuView {
                register_x: old(self)@.stack_pointer,
                status: spec_update_zn(old(self)@.status, old(self)@.stack_pointer),
                ..old(self)@
            });
        }
    }

    pub(crate) fn txa(&mut self)
        ensures
            final(self)@ == (CpuView {
                register_a: old(self)@.register_x,
                status: spec_update_zn(old(self)@.status, old(self)@.register_x),
                ..old(self)@
            }),
    {
        self.register_a = self.register_x;
        let a = self.register_a;
        self.update_zero_and_negative_flags(a);
        proof {
            assert(self@ =~= CpuView {
                register_a: old(self)@.register_x,
                status: spec_update_zn(old(self)@.status, old(self)@.register_x),
                ..old(self)@
            });
        }
    }

    pub(crate) fn txs(&mut self)
        ensures
            final(self)@ == (CpuView { stack_pointer: old(self)@.register_x, ..old(self)@ }),
    {
        self.stack_pointer = self.register_x;
        proof {
            assert(self@ =~= CpuView { stack_pointer: old(self)@.register_x, ..old(self)@ });
        }
    }

    pub(crate) fn tya(&mut self)
        ensures
            final(self)@ == (CpuView {
                register_a: old(self)@.register_y,
                status: spec_update_zn(old(self)@.status, old(self)@.register_y),
                ..old(self)@
            }),
    {
        self.register_a = self.register_y;
        let a = self.register_a;
        self.update_zero_and_negative_flags(a);
        proof {
            assert(self@ =~= CpuView {
                register_a: old(self)@.register_y,
                status: spec_update_zn(old(self)@.status, old(self)@.register_y),
                ..old(self)@
            });
        }
    }

    pub(crate) fn inx(&mut self)
        ensures
            final(self)@ == (CpuView {
                register_x: spec_wadd8(old(self)@.register_x, 1),
                status: spec_update_zn(old(self)@.status, spec_wadd8(old(self)@.register_x, 1)),
                ..old(self)@
            }),
    {
        self.register_x = self.register_x.wrapping_add(1);
        let x = self.register_x;
        self.update_zero_and_negative_flags(x);
        proof {
            assert(self@ =~= CpuView {
                register_x: spec_wadd8(old(self)@.register_x, 1),
                status: spec_update_zn(old(self)@.status, spec_wadd8(old(self)@.register_x, 1)),
                ..old(self)@
            });
        }
    }

    pub(crate) fn iny(&mut self)
        ensures
            final(self)@ == (CpuView {
                register_y: spec_wadd8(old(self)@.register_y, 1),
                status: spec_update_zn(old(self)@.status, spec_wadd8(old(self)@.register_y, 1)),
                ..old(self)@
            }),
    {
        self.register_y = self.register_y.wrapping_add(1);
        let y = self.register_y;
        self.update_zero_and_negative_flags(y);
        proof {
            assert(self@ =~= CpuView {
                register_y: spec_wadd8(old(self)@.register_y, 1),
                status: spec_update_zn(old(self)@.status, spec_wadd8(old(self)@.register_y, 1)),
                ..old(self)@
            });
        }
    }

    pub(crate) fn dex(&mut self)
        ensures
            final(self)@ == (CpuView {
                register_x: spec_wadd8(old(self)@.register_x, -1),
                status: spec_update_zn(old(self)@.status, spec_wadd8(old(self)@.register_x, -1)),
                ..old(self)@
            }),
    {
        self.register_x = self.register_x.wrapping_sub(1);
        let x = self.register_x;
        self.update_zero_and_negative_flags(x);
        proof {
            assert(self@ =~= CpuView {
                register_x: spec_wadd8(old(self)@.register_x, -1),
                status: spec_update_zn(old(self)@.status, spec_wadd8(old(self)@.register_x, -1)),
                ..old(self)@
            });
        }
    }

    pub(crate) fn dey(&mut self)
        ensures
            final(self)@ == (CpuView {
                register_y: spec_wadd8(old(self)@.register_y, -1),
                status: spec_update_zn(old(self)@.status, spec_wadd8(old(self)@.register_y, -1)),
                ..old(self)@
            }),
    {
        self.register_y = self.register_y.wrapping_sub(1);
        let y = self.register_y;
        self.update_zero_and_negative_flags(y);
        proof {
            assert(self@ =~= CpuView {
                register_y: spec_wadd8(old(self)@.register_y, -1),
                status: spec_update_zn(old(self)@.status, spec_wadd8(old(self)@.register_y, -1)),
                ..old(self)@
            });
        }
    }

    /// Sets or clears one status flag; covers CLD, CLI, CLV, CLC, SEC, SEI
    /// and SED.
    pub(crate) fn set_status_flag(&mut self, flag: u8, on: bool)
        ensures
            final(self)@ == (CpuView {
                status: spec_set_flag(old(self)@.status, flag, on),
                ..old(self)@
            }),
    {
        if on {
            self.status = self.status | flag;
        } else {
            self.status = self.status & !flag;
        }
        proof {
            assert(self@ =~= CpuView {
                status: spec_set_flag(old(self)@.status, flag, on),
                ..old(self)@
            });
        }
    }

    pub(crate) fn pha(&mut self)
        requires
            old(self)@.wf(),
        ensures
            final(self)@ == spec_stack_push(old(self)@, old(self)@.register_a),
            final(self)@.wf(),
    {
        let a = self.register_a;
        self.stack_push(a);
    }

    pub(crate) fn pla(&mut self)
        requires
            old(self)@.wf(),
        ensures
            final(self)@ == ({
                let popped = spec_stack_pop(old(self)@);
                CpuView {
                    register_a: popped.1,
                    status: spec_update_zn(popped.0.status, popped.1),
                    ..popped.0
                }
            }),
            final(self)@.wf(),
    {
        let v = self.stack_pop();
        self.register_a = v;
        self.update_zero_and_negative_flags(v);
        proof {
            assert(self@ =~= ({
                let popped = spec_stack_pop(old(self)@);
                CpuView {
                    register_a: popped.1,
                    status: spec_update_zn(popped.0.status, popped.1),
                    ..popped.0
                }
            }));
        }
    }

    pub(crate) fn php(&mut self)
        requires
            old(self)@.wf(),
        ensures
            final(self)@ == spec_stack_push(old(self)@, old(self)@.status | FLAG_BREAK | FLAG_BREAK2),
            final(self)@.wf(),
    {
        let flags = self.status | FLAG_BREAK | FLAG_BREAK2;
        self.stack_push(flags);
    }

    pub(crate) fn plp(&mut self)
        requires
            old(self)@.wf(),
        ensures
            final(self)@ == ({
                let popped = spec_stack_pop(old(self)@);
                CpuView { status: spec_status_from_stack(popped.1), ..popped.0 }
            }),
            final(self)@.wf(),
    {
        let v = self.stack_pop();
        self.status = (v & !FLAG_BREAK) | FLAG_BREAK2;
        proof {
            assert(self@ =~= ({
                let popped = spec_stack_pop(old(self)@);
                CpuView { status: spec_status_from_stack(popped.1), ..popped.0 }
            }));
        }
    }
}

} // verus!
