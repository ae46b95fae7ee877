//! The library's cross-cutting guarantees, stated and proved over the
//! transition functions.  The bus-local mirroring laws live beside their
//! buses; here stand the register-protocol and execution-step laws.

use vstd::prelude::*;
use crate::cpu::{CpuView, spec_cpu_read, spec_cpu_read16, spec_wadd16};
use crate::execution::{spec_cpu_tick, spec_cpu_reset, spec_exec_op, spec_poll_nmi};
use crate::opcode::spec_opcode;
use crate::ppu::{
    PpuView, spec_ppu_read_status, spec_ppu_write_oam_data, spec_dma_src,
};
use crate::cpu_bus::spec_oam_dma;
use crate::registers::{
    AddrRegister, spec_addr_mirror, spec_addr_update, STATUS_VBLANK_STARTED,
};
use crate::cpu::STACK_RESET;

verus! {

/// A `$2004` write stores at OAMADDR and steps it modulo 256.
pub proof fn lemma_oam_addr_wraps_on_write(p: PpuView, value: u8)
    requires
        p.wf(),
    ensures
        spec_ppu_write_oam_data(p, value).oam_data[p.oam_addr as int] == value,
        spec_ppu_write_oam_data(p, value).oam_addr == (p.oam_addr + 1) % 256,
{
}

/// Each byte of a `$4014` DMA burst lands at OAMADDR plus its index, modulo
/// 256, and OAMADDR itself ends where it began.
pub proof fn lemma_oam_addr_wraps_on_dma(p: PpuView, data: Seq<u8>, j: int)
    requires
        p.wf(),
        data.len() == 256,
        0 <= j < 256,
    ensures
        spec_oam_dma(p, data).oam_data[(p.oam_addr + j) % 256] == data[j],
        spec_oam_dma(p, data).oam_addr == p.oam_addr,
{
    let k = (p.oam_addr + j) % 256;
    if p.oam_addr + j < 256 {
        assert(k == p.oam_addr + j);
    } else {
        assert(k == p.oam_addr + j - 256);
    }
    assert(spec_dma_src(p.oam_addr, k) == j);
}

/// After any sequence of `$2006` writes, a `$2002` read resets the shared
/// latch, so the next `$2006` write is taken as the high byte.
pub proof fn lemma_status_read_resets_addr_latch(p: PpuView, data: u8)
    ensures
        spec_ppu_read_status(p).0.addr.hi_ptr,
        spec_addr_update(spec_ppu_read_status(p).0.addr, data) == spec_addr_mirror(
            AddrRegister {
                value_hi: data,
                value_lo: p.addr.value_lo,
                hi_ptr: false,
            },
        ),
{
}

/// A `$2002` read returns the previous status byte and clears the vblank
/// bit, leaving the rest of the machine alone.
pub proof fn lemma_status_read_clears_vblank(p: PpuView)
    ensures
        spec_ppu_read_status(p).1 == p.status.bits,
        spec_ppu_read_status(p).0.status.bits & STATUS_VBLANK_STARTED == 0,
        spec_ppu_read_status(p).0.bus == p.bus,
        spec_ppu_read_status(p).0.oam_data == p.oam_data,
        spec_ppu_read_status(p).0.frame == p.frame,
{
    let bits = p.status.bits;
    assert((bits & !STATUS_VBLANK_STARTED) & STATUS_VBLANK_STARTED == 0) by (bit_vector);
}

/// Reset puts the register file into its documented state and fetches the
/// program counter from the reset vector.
pub proof fn lemma_reset_state(c: CpuView)
    ensures
        spec_cpu_reset(c).register_a == 0,
        spec_cpu_reset(c).register_x == 0,
        spec_cpu_reset(c).register_y == 0,
        spec_cpu_reset(c).stack_pointer == STACK_RESET,
        spec_cpu_reset(c).status == 0x24,
        spec_cpu_reset(c).program_counter == spec_cpu_read16(c, 0xfffc).1,
        spec_cpu_reset(c).remaining_cycles == 0,
{
}

/// On an instruction boundary with no interrupt pending, one step advances
/// the program counter by the fetched opcode's declared length whenever the
/// instruction itself did not write the program counter.
pub proof fn lemma_pc_advances_by_length(c: CpuView)
    requires
        c.remaining_cycles == 0,
        !spec_poll_nmi(c).1,
        ({
            let c0 = spec_poll_nmi(c).0;
            spec_cpu_read(c0, c0.program_counter).1 != 0
        }),
        ({
            let c0 = spec_poll_nmi(c).0;
            let fetched = spec_cpu_read(c0, c0.program_counter);
            let c2 = CpuView {
                remaining_cycles: spec_opcode(fetched.1).cycles,
                program_counter: spec_wadd16(fetched.0.program_counter, 1),
                ..fetched.0
            };
            spec_exec_op(c2, fetched.1).program_counter == c2.program_counter
        }),
    ensures
        ({
            let c0 = spec_poll_nmi(c).0;
            let code = spec_cpu_read(c0, c0.program_counter).1;
            spec_cpu_tick(c).0.program_counter == spec_wadd16(
                c0.program_counter,
                spec_opcode(code).len as int,
            )
        }),
{
    let c0 = spec_poll_nmi(c).0;
    let fetched = spec_cpu_read(c0, c0.program_counter);
    let code = fetched.1;
    let len = spec_opcode(code).len as int;
    assert(fetched.0.program_counter == c0.program_counter);
    let after1 = spec_wadd16(c0.program_counter, 1);
    assert(spec_cpu_tick(c).0.program_counter == spec_wadd16(after1, len - 1));
    assert(spec_wadd16(after1, len - 1) == spec_wadd16(c0.program_counter, len)) by {
        assert(after1 == ((c0.program_counter + 1) % 0x10000 + 0x10000) % 0x10000);
    };
}

/// A step on a boundary charges the fetched opcode's base cycle budget
/// before any instruction-specific extras; within an instruction, each step
/// only counts the budget down.
pub proof fn lemma_cycle_countdown(c: CpuView)
    requires
        c.remaining_cycles > 0,
    ensures
        spec_cpu_tick(c).0 == (CpuView {
            remaining_cycles: (c.remaining_cycles - 1) as u8,
            ..c
        }),
        spec_cpu_tick(c).1,
{
}

} // verus!
