//! The unofficial 6502 instructions the NES library supports, from the
//! combined load/ALU forms down to the unstable address-high stores.

use vstd::prelude::*;
use crate::cpu::{
    CPU, CpuView, spec_cpu_read, spec_cpu_write, spec_cpu_read16, spec_operand_addr,
    spec_update_zn, spec_set_flag, spec_wadd8, spec_wadd16, spec_mode_addressed, FLAG_CARRY,
    FLAG_OVERFLOW, FLAG_NEGATIVE,
};
use crate::instructions::{
    spec_lda, spec_add_to_a, spec_inc_mem, spec_asl_mem, spec_rol_mem, spec_lsr_mem,
    spec_ror_mem, spec_ror_acc, spec_lsr_acc,
};
use crate::opcode::AddressingMode;

verus! {

broadcast use crate::cpu::lemma_absolute_addr_frame;

/// LAX: load A and copy it into X.
#[verifier::opaque]
pub open spec fn spec_lax(c: CpuView, mode: AddressingMode) -> CpuView {
    let op = spec_operand_addr(c, mode);
    let rd = spec_cpu_read(op.0, op.1);
    CpuView {
        register_a: rd.1,
        register_x: rd.1,
        status: spec_update_zn(rd.0.status, rd.1),
        ..rd.0
    }
}

/// SAX: store A AND X.
#[verifier::opaque]
pub open spec fn spec_sax(c: CpuView, mode: AddressingMode) -> CpuView {
    let op = spec_operand_addr(c, mode);
    spec_cpu_write(op.0, op.1, c.register_a & c.register_x)
}

/// The unofficial SBC: subtract without the page-cross cycle.
#[verifier::opaque]
pub open spec fn spec_unofficial_sbc(c: CpuView, mode: AddressingMode) -> CpuView {
    let op = spec_operand_addr(c, mode);
    let rd = spec_cpu_read(op.0, op.1);
    spec_add_to_a(rd.0, rd.1 ^ 0xff)
}

/// DCP: decrement memory, then compare against A; C is only ever raised.
#[verifier::opaque]
pub open spec fn spec_dcp(c: CpuView, mode: AddressingMode) -> CpuView {
    let op = spec_operand_addr(c, mode);
    let rd = spec_cpu_read(op.0, op.1);
    let nd = spec_wadd8(rd.1, -1);
    let c3 = spec_cpu_write(rd.0, op.1, nd);
    let s1 = if nd <= c.register_a {
        c3.status | FLAG_CARRY
    } else {
        c3.status
    };
    CpuView { status: spec_update_zn(s1, spec_wadd8(c.register_a, -(nd as int))), ..c3 }
}

/// ISB: increment memory, then subtract it from A.
#[verifier::opaque]
pub open spec fn spec_isb(c: CpuView, mode: AddressingMode) -> CpuView {
    let inc = spec_inc_mem(c, mode);
    spec_add_to_a(inc.0, inc.1 ^ 0xff)
}

/// SLO: shift left in memory, then OR into A.
#[verifier::opaque]
pub open spec fn spec_slo(c: CpuView, mode: AddressingMode) -> CpuView {
    let sh = spec_asl_mem(c, mode);
    let a = sh.1 | sh.0.register_a;
    CpuView { register_a: a, status: spec_update_zn(sh.0.status, a), ..sh.0 }
}

/// RLA: rotate left in memory, then AND into A.
#[verifier::opaque]
pub open spec fn spec_rla(c: CpuView, mode: AddressingMode) -> CpuView {
    let sh = spec_rol_mem(c, mode);
    let a = sh.1 & sh.0.register_a;
    CpuView { register_a: a, status: spec_update_zn(sh.0.status, a), ..sh.0 }
}

/// SRE: shift right in memory, then EOR into A.
#[verifier::opaque]
pub open spec fn spec_sre(c: CpuView, mode: AddressingMode) -> CpuView {
    let sh = spec_lsr_mem(c, mode);
    let a = sh.1 ^ sh.0.register_a;
    CpuView { register_a: a, status: spec_update_zn(sh.0.status, a), ..sh.0 }
}

/// RRA: rotate right in memory, then add it to A.
#[verifier::opaque]
pub open spec fn spec_rra(c: CpuView, mode: AddressingMode) -> CpuView {
    let sh = spec_ror_mem(c, mode);
    spec_add_to_a(sh.0, sh.1)
}

/// AXS: X becomes (A AND X) minus the operand; C is only ever raised.
#[verifier::opaque]
pub open spec fn spec_axs(c: CpuView, mode: AddressingMode) -> CpuView {
    let op = spec_operand_addr(c, mode);
    let rd = spec_cpu_read(op.0, op.1);
    let x_and_a = c.register_x & c.register_a;
    let result = spec_wadd8(x_and_a, -(rd.1 as int));
    let s1 = if rd.1 <= x_and_a {
        rd.0.status | FLAG_CARRY
    } else {
        rd.0.status
    };
    CpuView { register_x: result, status: spec_update_zn(s1, result), ..rd.0 }
}

/// ARR: AND, rotate right, then C and V from bits 6 and 5 of the result.
#[verifier::opaque]
pub open spec fn spec_arr(c: CpuView, mode: AddressingMode) -> CpuView {
    let op = spec_operand_addr(c, mode);
    let rd = spec_cpu_read(op.0, op.1);
    let a1 = rd.1 & c.register_a;
    let c1 = CpuView { register_a: a1, status: spec_update_zn(rd.0.status, a1), ..rd.0 };
    let c2 = spec_ror_acc(c1);
    let result = c2.register_a;
    let bit_5 = (result >> 5) & 1;
    let bit_6 = (result >> 6) & 1;
    let s1 = spec_set_flag(c2.status, FLAG_CARRY, bit_6 == 1);
    let s2 = spec_set_flag(s1, FLAG_OVERFLOW, bit_5 ^ bit_6 == 1);
    CpuView { status: spec_update_zn(s2, result), ..c2 }
}

/// ANC: AND, then copy N into C.
#[verifier::opaque]
pub open spec fn spec_anc(c: CpuView, mode: AddressingMode) -> CpuView {
    let op = spec_operand_addr(c, mode);
    let rd = spec_cpu_read(op.0, op.1);
    let a1 = rd.1 & c.register_a;
    let s1 = spec_update_zn(rd.0.status, a1);
    let s2 = spec_set_flag(s1, FLAG_CARRY, s1 & FLAG_NEGATIVE != 0);
    CpuView { register_a: a1, status: s2, ..rd.0 }
}

/// ALR: AND, then shift the accumulator right.
#[verifier::opaque]
pub open spec fn spec_alr(c: CpuView, mode: AddressingMode) -> CpuView {
    let op = spec_operand_addr(c, mode);
    let rd = spec_cpu_read(op.0, op.1);
    let a1 = rd.1 & c.register_a;
    spec_lsr_acc(CpuView { register_a: a1, status: spec_update_zn(rd.0.status, a1), ..rd.0 })
}

/// LXA: load A, then copy it into X.
#[verifier::opaque]
pub open spec fn spec_lxa(c: CpuView, mode: AddressingMode) -> CpuView {
    let l = spec_lda(c, mode);
    CpuView {
        register_x: l.register_a,
        status: spec_update_zn(l.status, l.register_a),
        ..l
    }
}

/// XAA: A from X, then AND with the operand.
#[verifier::opaque]
pub open spec fn spec_xaa(c: CpuView, mode: AddressingMode) -> CpuView {
    let c1 = CpuView {
        register_a: c.register_x,
        status: spec_update_zn(c.status, c.register_x),
        ..c
    };
    let op = spec_operand_addr(c1, mode);
    let rd = spec_cpu_read(op.0, op.1);
    let a = rd.1 & c1.register_a;
    CpuView { register_a: a, status: spec_update_zn(rd.0.status, a), ..rd.0 }
}

/// LAS: memory AND SP lands in A, X and SP.
#[verifier::opaque]
pub open spec fn spec_las(c: CpuView, mode: AddressingMode) -> CpuView {
    let op = spec_operand_addr(c, mode);
    let rd = spec_cpu_read(op.0, op.1);
    let data = rd.1 & c.stack_pointer;
    CpuView {
        register_a: data,
        register_x: data,
        stack_pointer: data,
        status: spec_update_zn(rd.0.status, data),
        ..rd.0
    }
}

/// TAS: SP from A AND X; the store uses the address high byte plus one.
#[verifier::opaque]
pub open spec fn spec_tas(c: CpuView) -> CpuView {
    let data = c.register_a & c.register_x;
    let c1 = CpuView { stack_pointer: data, ..c };
    let rd = spec_cpu_read16(c1, c1.program_counter);
    let addr = spec_wadd16(rd.1, c1.register_y as int);
    let stored = spec_wadd8((addr >> 8) as u8, 1) & c1.stack_pointer;
    spec_cpu_write(rd.0, addr, stored)
}

/// AHX with (indirect),Y addressing.
#[verifier::opaque]
pub open spec fn spec_ahx_indirect_y(c: CpuView) -> CpuView {
    let pos = spec_cpu_read(c, c.program_counter);
    let rd = spec_cpu_read16(pos.0, pos.1 as u16);
    let addr = spec_wadd16(rd.1, c.register_y as int);
    let data = c.register_a & c.register_x & (addr >> 8) as u8;
    spec_cpu_write(rd.0, addr, data)
}

/// AHX with absolute,Y addressing.
#[verifier::opaque]
pub open spec fn spec_ahx_absolute_y(c: CpuView) -> CpuView {
    let rd = spec_cpu_read16(c, c.program_counter);
    let addr = spec_wadd16(rd.1, c.register_y as int);
    let data = c.register_a & c.register_x & (addr >> 8) as u8;
    spec_cpu_write(rd.0, addr, data)
}

/// SHX: store X AND the address high byte plus one.
#[verifier::opaque]
pub open spec fn spec_shx(c: CpuView) -> CpuView {
    let rd = spec_cpu_read16(c, c.program_counter);
    let addr = spec_wadd16(rd.1, c.register_y as int);
    let data = c.register_x & spec_wadd8((addr >> 8) as u8, 1);
    spec_cpu_write(rd.0, addr, data)
}

/// SHY: store Y AND the address high byte plus one.
#[verifier::opaque]
pub open spec fn spec_shy(c: CpuView) -> CpuView {
    let rd = spec_cpu_read16(c, c.program_counter);
    let addr = spec_wadd16(rd.1, c.register_x as int);
    let data = c.register_y & spec_wadd8((addr >> 8) as u8, 1);
    spec_cpu_write(rd.0, addr, data)
}

impl CPU {
    pub(crate) fn lax(&mut self, mode: &AddressingMode)
        requires
            old(self)@.wf(),
        ensures
            final(self)@ == spec_lax(old(self)@, *mode),
            final(self)@.wf(),
    {
        let (addr, _) = self.get_operand_address(mode);
        let data = self.mem_read(addr);
        self.register_a = data;
        let a = self.register_a;
        self.update_zero_and_negative_flags(a);
        self.register_x = self.register_a;
        proof {
            reveal(spec_lax);
            assert(self@ =~= spec_lax(old(self)@, *mode));
        }
    }

    pub(crate) fn sax(&mut self, mode: &AddressingMode)
        requires
            old(self)@.wf(),
        ensures
            final(self)@ == spec_sax(old(self)@, *mode),
            final(self)@.wf(),
    {
        let data = self.register_a & self.register_x;
        let (addr, _) = self.get_operand_address(mode);
        self.mem_write(addr, data);
        proof {
            reveal(spec_sax);
            assert(self@ =~= spec_sax(old(self)@, *mode));
        }
    }

    pub(crate) fn unofficial_sbc(&mut self, mode: &AddressingMode)
        requires
            old(self)@.wf(),
        ensures
            final(self)@ == spec_unofficial_sbc(old(self)@, *mode),
            final(self)@.wf(),
    {
        let (addr, _) = self.get_operand_address(mode);
        let data = self.mem_read(addr);
        self.sub_from_register_a(data);
        proof {
            reveal(spec_unofficial_sbc);
            assert(self@ =~= spec_unofficial_sbc(old(self)@, *mode));
        }
    }

    pub(crate) fn dcp(&mut self, mode: &AddressingMode)
        requires
            old(self)@.wf(),
        ensures
            final(self)@ == spec_dcp(old(self)@, *mode),
            final(self)@.wf(),
    {
        let (addr, _) = self.get_operand_address(mode);
        let data = self.mem_read(addr);
        let nd = data.wrapping_sub(1);
        self.mem_write(addr, nd);
        if nd <= self.register_a {
            self.status = self.status | FLAG_CARRY;
        }
        let a = self.register_a;
        self.update_zero_and_negative_flags(a.wrapping_sub(nd));
        proof {
            reveal(spec_dcp);
            assert(self@ =~= spec_dcp(old(self)@, *mode));
        }
    }

    pub(crate) fn isb(&mut self, mode: &AddressingMode)
        requires
            old(self)@.wf(),
        ensures
            final(self)@ == spec_isb(old(self)@, *mode),
            final(self)@.wf(),
    {
        let data = self.inc(mode);
        self.sub_from_register_a(data);
        proof {
            reveal(spec_isb);
            assert(self@ =~= spec_isb(old(self)@, *mode));
        }
    }

    pub(crate) fn slo(&mut self, mode: &AddressingMode)
        requires
            old(self)@.wf(),
        ensures
            final(self)@ == spec_slo(old(self)@, *mode),
            final(self)@.wf(),
    {
        let data = self.asl(mode);
        self.register_a = data | self.register_a;
        let a = self.register_a;
        self.update_zero_and_negative_flags(a);
        proof {
            reveal(spec_slo);
            assert(self@ =~= spec_slo(old(self)@, *mode));
        }
    }

    pub(crate) fn rla(&mut self, mode: &AddressingMode)
        requires
            old(self)@.wf(),
        ensures
            final(self)@ == spec_rla(old(self)@, *mode),
            final(self)@.wf(),
    {
        let data = self.rol(mode);
        self.register_a = data & self.register_a;
        let a = self.register_a;
        self.update_zero_and_negative_flags(a);
        proof {
            reveal(spec_rla);
            assert(self@ =~= spec_rla(old(self)@, *mode));
        }
    }

    pub(crate) fn sre(&mut self, mode: &AddressingMode)
        requires
            old(self)@.wf(),
        ensures
            final(self)@ == spec_sre(old(self)@, *mode),
            final(self)@.wf(),
    {
        let data = self.lsr(mode);
        self.register_a = data ^ self.register_a;
        let a = self.register_a;
        self.update_zero_and_negative_flags(a);
        proof {
            reveal(spec_sre);
            assert(self@ =~= spec_sre(old(self)@, *mode));
        }
    }

    pub(crate) fn rra(&mut self, mode: &AddressingMode)
        requires
            old(self)@.wf(),
        ensures
            final(self)@ == spec_rra(old(self)@, *mode),
            final(self)@.wf(),
    {
        let data = self.ror(mode);
        self.add_to_register_a(data);
        proof {
            reveal(spec_rra);
            assert(self@ =~= spec_rra(old(self)@, *mode));
        }
    }

    pub(crate) fn axs(&mut self, mode: &AddressingMode)
        requires
            old(self)@.wf(),
        ensures
            final(self)@ == spec_axs(old(self)@, *mode),
            final(self)@.wf(),
    {
        let (addr, _) = self.get_operand_address(mode);
        let data = self.mem_read(addr);
        let x_and_a = self.register_x & self.register_a;
        let result = x_and_a.wrapping_sub(data);
        if data <= x_and_a {
            self.status = self.status | FLAG_CARRY;
        }
        self.update_zero_and_negative_flags(result);
        self.register_x = result;
        proof {
            reveal(spec_axs);
            assert(self@ =~= spec_axs(old(self)@, *mode));
        }
    }

    pub(crate) fn arr(&mut self, mode: &AddressingMode)
        requires
            old(self)@.wf(),
        ensures
            final(self)@ == spec_arr(old(self)@, *mode),
            final(self)@.wf(),
    {
        let (addr, _) = self.get_operand_address(mode);
        let data = self.mem_read(addr);
        self.register_a = data & self.register_a;
        let a = self.register_a;
        self.update_zero_and_negative_flags(a);
        self.ror_accumulator();
        let result = self.register_a;
        let bit_5 = (result >> 5) & 1;
        let bit_6 = (result >> 6) & 1;
        if bit_6 == 1 {
            self.status = self.status | FLAG_CARRY;
        } else {
            self.status = self.status & !FLAG_CARRY;
        }
        if bit_5 ^ bit_6 == 1 {
            self.status = self.status | FLAG_OVERFLOW;
        } else {
            self.status = self.status & !FLAG_OVERFLOW;
        }
        self.update_zero_and_negative_flags(result);
        proof {
            reveal(spec_arr);
            assert(self@ =~= spec_arr(old(self)@, *mode));
        }
    }

    pub(crate) fn anc(&mut self, mode: &AddressingMode)
        requires
            old(self)@.wf(),
        ensures
            final(self)@ == spec_anc(old(self)@, *mode),
            final(self)@.wf(),
    {
        let (addr, _) = self.get_operand_address(mode);
        let data = self.mem_read(addr);
        self.register_a = data & self.register_a;
        let a = self.register_a;
        self.update_zero_and_negative_flags(a);
        if self.status & FLAG_NEGATIVE != 0 {
            self.status = self.status | FLAG_CARRY;
        } else {
            self.status = self.status & !FLAG_CARRY;
        }
        proof {
            reveal(spec_anc);
            assert(self@ =~= spec_anc(old(self)@, *mode));
        }
    }

    pub(crate) fn alr(&mut self, mode: &AddressingMode)
        requires
            old(self)@.wf(),
        ensures
            final(self)@ == spec_alr(old(self)@, *mode),
            final(self)@.wf(),
    {
        let (addr, _) = self.get_operand_address(mode);
        let data = self.mem_read(addr);
        self.register_a = data & self.register_a;
        let a = self.register_a;
        self.update_zero_and_negative_flags(a);
        self.lsr_accumulator();
        proof {
            reveal(spec_alr);
            assert(self@ =~= spec_alr(old(self)@, *mode));
        }
    }

    pub(crate) fn lxa(&mut self, mode: &AddressingMode)
        requires
            old(self)@.wf(),
        ensures
            final(self)@ == spec_lxa(old(self)@, *mode),
            final(self)@.wf(),
    {
        self.lda(mode);
        self.tax();
        proof {
            reveal(spec_lxa);
            assert(self@ =~= spec_lxa(old(self)@, *mode));
        }
    }

    pub(crate) fn xaa(&mut self, mode: &AddressingMode)
        requires
            old(self)@.wf(),
        ensures
            final(self)@ == spec_xaa(old(self)@, *mode),
            final(self)@.wf(),
    {
        self.register_a = self.register_x;
        let a0 = self.register_a;
        self.update_zero_and_negative_flags(a0);
        let (addr, _) = self.get_operand_address(mode);
        let data = self.mem_read(addr);
        self.register_a = data & self.register_a;
        let a = self.register_a;
        self.update_zero_and_negative_flags(a);
        proof {
            reveal(spec_xaa);
            assert(self@ =~= spec_xaa(old(self)@, *mode));
        }
    }

    pub(crate) fn las(&mut self, mode: &AddressingMode)
        requires
            old(self)@.wf(),
        ensures
            final(self)@ == spec_las(old(self)@, *mode),
            final(self)@.wf(),
    {
        let (addr, _) = self.get_operand_address(mode);
        let data = self.mem_read(addr);
        let masked = data & self.stack_pointer;
        self.register_a = masked;
        self.register_x = masked;
        self.stack_pointer = masked;
        self.update_zero_and_negative_flags(masked);
        proof {
            reveal(spec_las);
            assert(self@ =~= spec_las(old(self)@, *mode));
        }
    }

    pub(crate) fn tas(&mut self)
        requires
            old(self)@.wf(),
        ensures
            final(self)@ == spec_tas(old(self)@),
            final(self)@.wf(),
    {
        let data = self.register_a & self.register_x;
        self.stack_pointer = data;
        let pc = self.program_counter;
        let base = self.mem_read_u16(pc);
        let mem_address = base.wrapping_add(self.register_y as u16);
        let stored = ((mem_address >> 8) as u8).wrapping_add(1) & self.stack_pointer;
        self.mem_write(mem_address, stored);
        proof {
            reveal(spec_tas);
            assert(self@ =~= spec_tas(old(self)@));
        }
    }

    pub(crate) fn ahx_indirect_y(&mut self)
        requires
            old(self)@.wf(),
        ensures
            final(self)@ == spec_ahx_indirect_y(old(self)@),
            final(self)@.wf(),
    {
        let pc = self.program_counter;
        let pos = self.mem_read(pc);
        let base = self.mem_read_u16(pos as u16);
        let mem_address = base.wrapping_add(self.register_y as u16);
        let data = self.register_a & self.register_x & (mem_address >> 8) as u8;
        self.mem_write(mem_address, data);
        proof {
            reveal(spec_ahx_indirect_y);
            assert(self@ =~= spec_ahx_indirect_y(old(self)@));
        }
    }

    pub(crate) fn ahx_absolute_y(&mut self)
        requires
            old(self)@.wf(),
        ensures
            final(self)@ == spec_ahx_absolute_y(old(self)@),
            final(self)@.wf(),
    {
        let pc = self.program_counter;
        let base = self.mem_read_u16(pc);
        let mem_address = base.wrapping_add(self.register_y as u16);
        let data = self.register_a & self.register_x & (mem_address >> 8) as u8;
        self.mem_write(mem_address, data);
        proof {
            reveal(spec_ahx_absolute_y);
            assert(self@ =~= spec_ahx_absolute_y(old(self)@));
        }
    }

    pub(crate) fn shx(&mut self)
        requires
            old(self)@.wf(),
        ensures
            final(self)@ == spec_shx(old(self)@),
            final(self)@.wf(),
    {
        let pc = self.program_counter;
        let base = self.mem_read_u16(pc);
        let mem_address = base.wrapping_add(self.register_y as u16);
        let data = self.register_x & ((mem_address >> 8) as u8).wrapping_add(1);
        self.mem_write(mem_address, data);
        proof {
            reveal(spec_shx);
            assert(self@ =~= spec_shx(old(self)@));
        }
    }

    pub(crate) fn shy(&mut self)
        requires
            old(self)@.wf(),
        ensures
            final(self)@ == spec_shy(old(self)@),
            final(self)@.wf(),
    {
        let pc = self.program_counter;
        let base = self.mem_read_u16(pc);
        let mem_address = base.wrapping_add(self.register_x as u16);
        let data = self.register_y & ((mem_address >> 8) as u8).wrapping_add(1);
        self.mem_write(mem_address, data);
        proof {
            reveal(spec_shy);
            assert(self@ =~= spec_shy(old(self)@));
        }
    }
}

} // verus!
