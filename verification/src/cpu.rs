//! The 6502 CPU: registers, status flags, stack, addressing modes and the
//! cycle-counted execution loop.
//!
//! A CPU created on its own reads and writes a flat 64 KiB memory, which
//! backs the instruction-level tests; once a bus is connected every access
//! goes through the bus's address decoding instead.

use vstd::prelude::*;
use crate::cpu_bus::{
    CpuBus, CpuBusView, spec_cpu_bus_read, spec_cpu_bus_write, spec_cpu_bus_read16,
    spec_cpu_bus_write16,
};
use crate::opcode::AddressingMode;
use crate::registers::lemma_hi_lo_value;

verus! {

// Status flag bits of P.
pub const FLAG_CARRY: u8 = 0b0000_0001;

pub const FLAG_ZERO: u8 = 0b0000_0010;

pub const FLAG_INTERRUPT_DISABLE: u8 = 0b0000_0100;

pub const FLAG_DECIMAL_MODE: u8 = 0b0000_1000;

pub const FLAG_BREAK: u8 = 0b0001_0000;

pub const FLAG_BREAK2: u8 = 0b0010_0000;

pub const FLAG_OVERFLOW: u8 = 0b0100_0000;

pub const FLAG_NEGATIVE: u8 = 0b1000_0000;

pub const STACK_BASE: u16 = 0x0100;

pub const STACK_RESET: u8 = 0xfd;

/// CPU error taxonomy.
#[derive(Debug, PartialEq, Eq, Clone, Copy, Structural)]
pub enum CPUError {
    /// An opcode outside the supported set was fetched.
    UnknownOpCode(u8),
}

/// What the CPU reads and writes: its own flat memory, or the console bus.
pub enum CpuMem {
    Flat(Vec<u8>),
    Bus(CpuBus),
}

/// CPU registers plus its memory.
pub struct CPU {
    pub register_a: u8,
    pub register_x: u8,
    pub register_y: u8,
    pub status: u8,
    pub program_counter: u16,
    pub stack_pointer: u8,
    pub remaining_cycles: u8,
    pub mem: CpuMem,
}

/// Model of the memory side.
#[verifier::ext_equal]
pub ghost enum CpuMemView {
    Flat(Seq<u8>),
    Bus(CpuBusView),
}

/// Model of the whole CPU.
#[verifier::ext_equal]
pub ghost struct CpuView {
    pub register_a: u8,
    pub register_x: u8,
    pub register_y: u8,
    pub status: u8,
    pub program_counter: u16,
    pub stack_pointer: u8,
    pub remaining_cycles: u8,
    pub mem: CpuMemView,
}

impl View for CPU {
    type V = CpuView;

    open spec fn view(&self) -> CpuView {
        CpuView {
            register_a: self.register_a,
            register_x: self.register_x,
            register_y: self.register_y,
            status: self.status,
            program_counter: self.program_counter,
            stack_pointer: self.stack_pointer,
            remaining_cycles: self.remaining_cycles,
            mem: match self.mem {
                CpuMem::Flat(m) => CpuMemView::Flat(m@),
                CpuMem::Bus(b) => CpuMemView::Bus(b@),
            },
        }
    }
}

impl CpuView {
    pub open spec fn wf(self) -> bool {
        match self.mem {
            CpuMemView::Flat(m) => m.len() == 0x10000,
            CpuMemView::Bus(b) => b.wf(),
        }
    }
}

/// Whether two addresses lie on different 256-byte pages.
pub open spec fn spec_page_cross(a: u16, b: u16) -> bool {
    a & 0xff00 != b & 0xff00
}

/// Executable form of `spec_page_cross`.
pub fn page_cross(a: u16, b: u16) -> (r: bool)
    ensures
        r == spec_page_cross(a, b),
{
    a & 0xff00 != b & 0xff00
}

/// 16-bit wrap-around addition.
pub open spec fn spec_wadd16(a: u16, b: int) -> u16 {
    (((a + b) % 0x10000 + 0x10000) % 0x10000) as u16
}

/// 8-bit wrap-around addition.
pub open spec fn spec_wadd8(a: u8, b: int) -> u8 {
    (((a + b) % 256 + 256) % 256) as u8
}

/// The Z and N flags refreshed from a result byte.
pub open spec fn spec_update_zn(status: u8, result: u8) -> u8 {
    let with_z = if result == 0 {
        status | FLAG_ZERO
    } else {
        status & !FLAG_ZERO
    };
    if result & 0x80 != 0 {
        with_z | FLAG_NEGATIVE
    } else {
        with_z & !FLAG_NEGATIVE
    }
}

/// One flag set or cleared.
pub open spec fn spec_set_flag(status: u8, flag: u8, on: bool) -> u8 {
    if on {
        status | flag
    } else {
        status & !flag
    }
}

/// The same, lifted to the whole CPU state.
pub open spec fn spec_set_flag_view(c: CpuView, flag: u8, on: bool) -> CpuView {
    CpuView { status: spec_set_flag(c.status, flag, on), ..c }
}

/// One memory read, through whichever memory is connected.
pub open spec fn spec_mem_read(m: CpuMemView, addr: u16) -> (CpuMemView, u8) {
    match m {
        CpuMemView::Flat(bytes) => (m, bytes[addr as int]),
        CpuMemView::Bus(b) => {
            let r = spec_cpu_bus_read(b, addr);
            (CpuMemView::Bus(r.0), r.1)
        },
    }
}

/// One memory write.
pub open spec fn spec_mem_write(m: CpuMemView, addr: u16, value: u8) -> CpuMemView {
    match m {
        CpuMemView::Flat(bytes) => CpuMemView::Flat(bytes.update(addr as int, value)),
        CpuMemView::Bus(b) => CpuMemView::Bus(spec_cpu_bus_write(b, addr, value)),
    }
}

/// A read lifted to the whole CPU state.
pub open spec fn spec_cpu_read(c: CpuView, addr: u16) -> (CpuView, u8) {
    let r = spec_mem_read(c.mem, addr);
    (CpuView { mem: r.0, ..c }, r.1)
}

pub open spec fn spec_cpu_write(c: CpuView, addr: u16, value: u8) -> CpuView {
    CpuView { mem: spec_mem_write(c.mem, addr, value), ..c }
}

/// A little-endian 16-bit read: low byte at `pos`, high byte after it.
pub open spec fn spec_cpu_read16(c: CpuView, pos: u16) -> (CpuView, u16) {
    let lo = spec_cpu_read(c, pos);
    let hi = spec_cpu_read(lo.0, spec_wadd16(pos, 1));
    (hi.0, (hi.1 * 256 + lo.1) as u16)
}

pub open spec fn spec_cpu_write16(c: CpuView, pos: u16, data: u16) -> CpuView {
    let c1 = spec_cpu_write(c, pos, (data & 0xff) as u8);
    spec_cpu_write(c1, spec_wadd16(pos, 1), (data >> 8) as u8)
}

/// A push: store at `$0100 + SP`, then decrement SP with wrap-around.
pub open spec fn spec_stack_push(c: CpuView, value: u8) -> CpuView {
    let c1 = spec_cpu_write(c, (STACK_BASE + c.stack_pointer) as u16, value);
    CpuView { stack_pointer: spec_wadd8(c.stack_pointer, -1), ..c1 }
}

/// A pop: increment SP with wrap-around, then read at `$0100 + SP`.
pub open spec fn spec_stack_pop(c: CpuView) -> (CpuView, u8) {
    let sp = spec_wadd8(c.stack_pointer, 1);
    let r = spec_cpu_read(CpuView { stack_pointer: sp, ..c }, (STACK_BASE + sp) as u16);
    (r.0, r.1)
}

/// A 16-bit push: high byte first.
pub open spec fn spec_stack_push16(c: CpuView, data: u16) -> CpuView {
    let c1 = spec_stack_push(c, (data >> 8) as u8);
    spec_stack_push(c1, (data & 0xff) as u8)
}

/// A 16-bit pop: low byte first.
pub open spec fn spec_stack_pop16(c: CpuView) -> (CpuView, u16) {
    let lo = spec_stack_pop(c);
    let hi = spec_stack_pop(lo.0);
    (hi.0, (hi.1 * 256 + lo.1) as u16)
}

/// Operand address resolution for the addressed modes, with the reads it
/// performs and the page-cross report.
#[verifier::opaque]
pub open spec fn spec_absolute_addr(c: CpuView, mode: AddressingMode, at: u16) -> (
    CpuView,
    u16,
    bool,
) {
    match mode {
        AddressingMode::ZeroPage => {
            let r = spec_cpu_read(c, at);
            (r.0, r.1 as u16, false)
        },
        AddressingMode::Absolute => {
            let r = spec_cpu_read16(c, at);
            (r.0, r.1, false)
        },
        AddressingMode::ZeroPage_X => {
            let r = spec_cpu_read(c, at);
            (r.0, spec_wadd8(r.1, c.register_x as int) as u16, false)
        },
        AddressingMode::ZeroPage_Y => {
            let r = spec_cpu_read(c, at);
            (r.0, spec_wadd8(r.1, c.register_y as int) as u16, false)
        },
        AddressingMode::Absolute_X => {
            let r = spec_cpu_read16(c, at);
            let addr = spec_wadd16(r.1, c.register_x as int);
            (r.0, addr, spec_page_cross(r.1, addr))
        },
        AddressingMode::Absolute_Y => {
            let r = spec_cpu_read16(c, at);
            let addr = spec_wadd16(r.1, c.register_y as int);
            (r.0, addr, spec_page_cross(r.1, addr))
        },
        AddressingMode::Indirect_X => {
            let base = spec_cpu_read(c, at);
            let ptr = spec_wadd8(base.1, c.register_x as int);
            let lo = spec_cpu_read(base.0, ptr as u16);
            let hi = spec_cpu_read(lo.0, spec_wadd8(ptr, 1) as u16);
            (hi.0, (hi.1 * 256 + lo.1) as u16, false)
        },
        AddressingMode::Indirect_Y => {
            let base = spec_cpu_read(c, at);
            let lo = spec_cpu_read(base.0, base.1 as u16);
            let hi = spec_cpu_read(lo.0, spec_wadd8(base.1, 1) as u16);
            let deref_base = (hi.1 * 256 + lo.1) as u16;
            let deref = spec_wadd16(deref_base, c.register_y as int);
            (hi.0, deref, spec_page_cross(deref, deref_base))
        },
        _ => (c, 0, false),
    }
}

/// Operand resolution only touches the memory side of the state: every
/// register keeps its value.
pub broadcast proof fn lemma_absolute_addr_frame(c: CpuView, mode: AddressingMode, at: u16)
    ensures
        #[trigger] spec_absolute_addr(c, mode, at).0 == (CpuView {
            mem: spec_absolute_addr(c, mode, at).0.mem,
            ..c
        }),
{
    reveal(spec_absolute_addr);
}

/// Whether a mode resolves a memory address through `spec_absolute_addr`.
pub open spec fn spec_mode_addressed(mode: AddressingMode) -> bool {
    match mode {
        AddressingMode::ZeroPage => true,
        AddressingMode::Absolute => true,
        AddressingMode::ZeroPage_X => true,
        AddressingMode::ZeroPage_Y => true,
        AddressingMode::Absolute_X => true,
        AddressingMode::Absolute_Y => true,
        AddressingMode::Indirect_X => true,
        AddressingMode::Indirect_Y => true,
        _ => false,
    }
}

/// Operand resolution at the program counter: immediates use it directly.
pub open spec fn spec_operand_addr(c: CpuView, mode: AddressingMode) -> (CpuView, u16, bool) {
    match mode {
        AddressingMode::Immediate => (c, c.program_counter, false),
        _ => spec_absolute_addr(c, mode, c.program_counter),
    }
}

impl CPU {
    /// A CPU over its own zeroed 64 KiB, in the power-on register state.
    pub fn new() -> (c: CPU)
        ensures
            c@.wf(),
            c@.register_a == 0,
            c@.register_x == 0,
            c@.register_y == 0,
            c@.status == 0b100100,
            c@.program_counter == 0,
            c@.stack_pointer == STACK_RESET,
            c@.remaining_cycles == 0,
            c@.mem == CpuMemView::Flat(Seq::new(0x10000, |i: int| 0u8)),
    {
        let c = CPU {
            register_a: 0,
            register_x: 0,
            register_y: 0,
            status: 0b100100,
            program_counter: 0,
            stack_pointer: STACK_RESET,
            remaining_cycles: 0,
            mem: CpuMem::Flat(crate::ppu_bus::zero_vec(0x10000)),
        };
        c
    }

    /// Routes all further memory traffic through the console bus.
    pub fn connect_bus(&mut self, bus: CpuBus)
        ensures
            final(self)@ == (CpuView { mem: CpuMemView::Bus(bus@), ..old(self)@ }),
    {
        self.mem = CpuMem::Bus(bus);
        proof {
            assert(self@ =~= CpuView { mem: CpuMemView::Bus(bus@), ..old(self)@ });
        }
    }

    /// One memory read.
    pub fn mem_read(&mut self, addr: u16) -> (r: u8)
        requires
            old(self)@.wf(),
        ensures
            final(self)@ == spec_cpu_read(old(self)@, addr).0,
            r == spec_cpu_read(old(self)@, addr).1,
            final(self)@.wf(),
    {
        match &mut self.mem {
            CpuMem::Flat(bytes) => {
                let r = bytes[addr as usize];
                proof {
                    assert(self@ =~= spec_cpu_read(old(self)@, addr).0);
                }
                r
            },
            CpuMem::Bus(bus) => {
                let r = bus.mem_read(addr);
                proof {
                    assert(self@ =~= spec_cpu_read(old(self)@, addr).0);
                }
                r
            },
        }
    }

    /// One memory write.
    pub fn mem_write(&mut self, addr: u16, data: u8)
        requires
            old(self)@.wf(),
        ensures
            final(self)@ == spec_cpu_write(old(self)@, addr, data),
            final(self)@.wf(),
    {
        match &mut self.mem {
            CpuMem::Flat(bytes) => {
                bytes[addr as usize] = data;
                proof {
                    assert(self@ =~= spec_cpu_write(old(self)@, addr, data));
                }
            },
            CpuMem::Bus(bus) => {
                bus.mem_write(addr, data);
                proof {
                    assert(self@ =~= spec_cpu_write(old(self)@, addr, data));
                }
            },
        }
    }

    /// A little-endian 16-bit read.
    pub fn mem_read_u16(&mut self, pos: u16) -> (r: u16)
        requires
            old(self)@.wf(),
        ensures
            final(self)@ == spec_cpu_read16(old(self)@, pos).0,
            r == spec_cpu_read16(old(self)@, pos).1,
            final(self)@.wf(),
    {
        let lo = self.mem_read(pos);
        let hi = self.mem_read(pos.wrapping_add(1));
        proof {
            lemma_hi_lo_value(hi, lo);
        }
        ((hi as u16) << 8) | (lo as u16)
    }

    /// A little-endian 16-bit write.
    pub fn mem_write_u16(&mut self, pos: u16, data: u16)
        requires
            old(self)@.wf(),
        ensures
            final(self)@ == spec_cpu_write16(old(self)@, pos, data),
            final(self)@.wf(),
    {
        let hi = (data >> 8) as u8;
        let lo = (data & 0xff) as u8;
        self.mem_write(pos, lo);
        self.mem_write(pos.wrapping_add(1), hi);
    }

    /// Pushes one byte onto the stack page.
    pub fn stack_push(&mut self, data: u8)
        requires
            old(self)@.wf(),
        ensures
            final(self)@ == spec_stack_push(old(self)@, data),
            final(self)@.wf(),
    {
        self.mem_write(STACK_BASE + self.stack_pointer as u16, data);
        self.stack_pointer = self.stack_pointer.wrapping_sub(1);
        proof {
            assert(self@ =~= spec_stack_push(old(self)@, data));
        }
    }

    /// Pops one byte from the stack page.
    pub fn stack_pop(&mut self) -> (r: u8)
        requires
            old(self)@.wf(),
        ensures
            final(self)@ == spec_stack_pop(old(self)@).0,
            r == spec_stack_pop(old(self)@).1,
            final(self)@.wf(),
    {
        self.stack_pointer = self.stack_pointer.wrapping_add(1);
        let r = self.mem_read(STACK_BASE + self.stack_pointer as u16);
        proof {
            assert(self@ =~= spec_stack_pop(old(self)@).0);
        }
        r
    }

    /// Pushes a 16-bit value, high byte first.
    pub fn stack_push_u16(&mut self, data: u16)
        requires
            old(self)@.wf(),
        ensures
            final(self)@ == spec_stack_push16(old(self)@, data),
            final(self)@.wf(),
    {
        let hi = (data >> 8) as u8;
        let lo = (data & 0xff) as u8;
        self.stack_push(hi);
        self.stack_push(lo);
    }

    /// Pops a 16-bit value, low byte first.
    pub fn stack_pop_u16(&mut self) -> (r: u16)
        requires
            old(self)@.wf(),
        ensures
            final(self)@ == spec_stack_pop16(old(self)@).0,
            r == spec_stack_pop16(old(self)@).1,
            final(self)@.wf(),
    {
        let lo = self.stack_pop();
        let hi = self.stack_pop();
        proof {
            lemma_hi_lo_value(hi, lo);
        }
        ((hi as u16) << 8) | (lo as u16)
    }

    /// Resolves an operand address for an addressed mode, reporting whether
    /// an indexed mode crossed a page.
    #[verifier::rlimit(100)]
    pub fn get_absolute_address(&mut self, mode: &AddressingMode, addr: u16) -> (r: (u16, bool))
        requires
            old(self)@.wf(),
            spec_mode_addressed(*mode),
        ensures
            final(self)@ == spec_absolute_addr(old(self)@, *mode, addr).0,
            r.0 == spec_absolute_addr(old(self)@, *mode, addr).1,
            r.1 == spec_absolute_addr(old(self)@, *mode, addr).2,
            final(self)@.wf(),
    {
        proof {
            reveal(spec_absolute_addr);
        }
        match mode {
            AddressingMode::ZeroPage => {
                let v = self.mem_read(addr);
                (v as u16, false)
            },
            AddressingMode::Absolute => {
                let v = self.mem_read_u16(addr);
                (v, false)
            },
            AddressingMode::ZeroPage_X => {
                let pos = self.mem_read(addr);
                let a = pos.wrapping_add(self.register_x) as u16;
                (a, false)
            },
            AddressingMode::ZeroPage_Y => {
                let pos = self.mem_read(addr);
                let a = pos.wrapping_add(self.register_y) as u16;
                (a, false)
            },
            AddressingMode::Absolute_X => {
                let base = self.mem_read_u16(addr);
                let a = base.wrapping_add(self.register_x as u16);
                (a, page_cross(base, a))
            },
            AddressingMode::Absolute_Y => {
                let base = self.mem_read_u16(addr);
                let a = base.wrapping_add(self.register_y as u16);
                (a, page_cross(base, a))
            },
            AddressingMode::Indirect_X => {
                let base = self.mem_read(addr);
                let ptr = base.wrapping_add(self.register_x);
                let lo = self.mem_read(ptr as u16);
                let hi = self.mem_read(ptr.wrapping_add(1) as u16);
                proof {
                    lemma_hi_lo_value(hi, lo);
                }
                (((hi as u16) << 8) | (lo as u16), false)
            },
            AddressingMode::Indirect_Y => {
                let base = self.mem_read(addr);
                let lo = self.mem_read(base as u16);
                let hi = self.mem_read(base.wrapping_add(1) as u16);
                proof {
                    lemma_hi_lo_value(hi, lo);
                }
                let deref_base = ((hi as u16) << 8) | (lo as u16);
                let deref = deref_base.wrapping_add(self.register_y as u16);
                (deref, page_cross(deref, deref_base))
            },
            _ => (0, false),
        }
    }

    /// Operand resolution at the program counter.  Modes that resolve no
    /// address (implied and accumulator forms) report address zero.
    pub(crate) fn get_operand_address(&mut self, mode: &AddressingMode) -> (r: (u16, bool))
        requires
            old(self)@.wf(),
        ensures
            final(self)@ == spec_operand_addr(old(self)@, *mode).0,
            r.0 == spec_operand_addr(old(self)@, *mode).1,
            r.1 == spec_operand_addr(old(self)@, *mode).2,
            final(self)@.wf(),
    {
        match mode {
            AddressingMode::Immediate => (self.program_counter, false),
            AddressingMode::NoneAddressing => {
                proof {
                    reveal(spec_absolute_addr);
                }
                (0, false)
            },
            _ => {
                let pc = self.program_counter;
                self.get_absolute_address(mode, pc)
            },
        }
    }

    /// Refreshes Z and N from a result byte.
    pub(crate) fn update_zero_and_negative_flags(&mut self, result: u8)
        ensures
            final(self)@ == (CpuView {
                status: spec_update_zn(old(self)@.status, result),
                ..old(self)@
            }),
    {
        if result == 0 {
            self.status = self.status | FLAG_ZERO;
        } else {
            self.status = self.status & !FLAG_ZERO;
        }
        if result & 0b1000_0000 != 0 {
            self.status = self.status | FLAG_NEGATIVE;
        } else {
            self.status = self.status & !FLAG_NEGATIVE;
        }
        proof {
            assert(self@ =~= CpuView { status: spec_update_zn(old(self)@.status, result), ..old(self)@ });
        }
    }

    /// Whether the current cycle is an instruction boundary.
    pub fn instruction_changed(&self) -> (r: bool)
        ensures
            r == (self@.remaining_cycles == 0),
    {
        self.remaining_cycles == 0
    }
}

} // verus!
