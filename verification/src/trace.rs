//! The nestest-style execution trace: program counter, raw opcode bytes,
//! mnemonic and operand disassembly, then the register file.
//!
//! Tracing reads the machine without perturbing it: operand bytes and target
//! values come from side-effect-free peeks, so a trace line is a pure
//! function of the machine state.

use vstd::prelude::*;
use crate::cpu::{CPU, CpuMem, CpuView, spec_cpu_read, spec_wadd8, spec_wadd16};
use crate::cpu_bus::{CpuBus, spec_cpu_bus_read};
use crate::instructions::spec_sign_ext;
use crate::opcode::{AddressingMode, opcode_info, spec_opcode, spec_mnemonic, push_mnemonic};

verus! {

/// The value a bus read would return, without its side effects.
pub open spec fn spec_cpu_peek(c: CpuView, addr: u16) -> u8 {
    spec_cpu_read(c, addr).1
}

/// A peeked little-endian 16-bit value.
pub open spec fn spec_cpu_peek16(c: CpuView, pos: u16) -> u16 {
    (spec_cpu_peek(c, spec_wadd16(pos, 1)) * 256 + spec_cpu_peek(c, pos)) as u16
}

/// Operand address resolution over peeks: the same arithmetic as the
/// executing form, but no state is threaded between the reads.
pub open spec fn spec_peek_absolute_addr(c: CpuView, mode: AddressingMode, at: u16) -> u16 {
    match mode {
        AddressingMode::ZeroPage => spec_cpu_peek(c, at) as u16,
        AddressingMode::Absolute => spec_cpu_peek16(c, at),
        AddressingMode::ZeroPage_X => spec_wadd8(spec_cpu_peek(c, at), c.register_x as int) as u16,
        AddressingMode::ZeroPage_Y => spec_wadd8(spec_cpu_peek(c, at), c.register_y as int) as u16,
        AddressingMode::Absolute_X => spec_wadd16(spec_cpu_peek16(c, at), c.register_x as int),
        AddressingMode::Absolute_Y => spec_wadd16(spec_cpu_peek16(c, at), c.register_y as int),
        AddressingMode::Indirect_X => {
            let ptr = spec_wadd8(spec_cpu_peek(c, at), c.register_x as int);
            (spec_cpu_peek(c, spec_wadd8(ptr, 1) as u16) * 256 + spec_cpu_peek(c, ptr as u16)) as u16
        },
        AddressingMode::Indirect_Y => {
            let base = spec_cpu_peek(c, at);
            let deref_base = (spec_cpu_peek(c, spec_wadd8(base, 1) as u16) * 256 + spec_cpu_peek(
                c,
                base as u16,
            )) as u16;
            spec_wadd16(deref_base, c.register_y as int)
        },
        _ => 0,
    }
}

/// One uppercase hexadecimal digit.
pub open spec fn spec_hex_digit(n: u8) -> char {
    match n & 0xf {
        0 => '0',
        1 => '1',
        2 => '2',
        3 => '3',
        4 => '4',
        5 => '5',
        6 => '6',
        7 => '7',
        8 => '8',
        9 => '9',
        10 => 'A',
        11 => 'B',
        12 => 'C',
        13 => 'D',
        14 => 'E',
        _ => 'F',
    }
}

/// Two hex digits of a byte.
pub open spec fn spec_hex2(v: u8) -> Seq<char> {
    seq![spec_hex_digit(v >> 4), spec_hex_digit(v)]
}

/// Four hex digits of a word.
pub open spec fn spec_hex4(v: u16) -> Seq<char> {
    spec_hex2((v >> 8) as u8) + spec_hex2((v & 0xff) as u8)
}

/// `n` spaces.
pub open spec fn spec_spaces(n: int) -> Seq<char>
    decreases n,
{
    if n <= 0 {
        Seq::empty()
    } else {
        spec_spaces(n - 1).push(' ')
    }
}

/// A string padded with spaces on the right to width `n`.
pub open spec fn spec_pad_to(s: Seq<char>, n: int) -> Seq<char> {
    if s.len() >= n {
        s
    } else {
        s + spec_spaces(n - s.len())
    }
}

/// A string with its trailing spaces removed.
pub open spec fn spec_trim_right(s: Seq<char>) -> Seq<char>
    decreases s.len(),
{
    if s.len() > 0 && s.last() == ' ' {
        spec_trim_right(s.drop_last())
    } else {
        s
    }
}

/// The operand field of the disassembly, by addressing mode and length.
pub open spec fn spec_operand_text(c: CpuView, code: u8) -> Seq<char> {
    let info = spec_opcode(code);
    let begin = c.program_counter;
    let mem_addr = spec_peek_absolute_addr(c, info.mode, spec_wadd16(begin, 1));
    let stored = spec_cpu_peek(c, mem_addr);
    if info.len == 1 {
        if code == 0x0a || code == 0x4a || code == 0x2a || code == 0x6a {
            seq!['A', ' ']
        } else {
            Seq::empty()
        }
    } else if info.len == 2 {
        let address = spec_cpu_peek(c, spec_wadd16(begin, 1));
        match info.mode {
            AddressingMode::Immediate => seq!['#', '$'] + spec_hex2(address),
            AddressingMode::ZeroPage => seq!['$'] + spec_hex2(mem_addr as u8) + seq![' ', '=', ' ']
                + spec_hex2(stored),
            AddressingMode::ZeroPage_X => seq!['$'] + spec_hex2(address) + seq![',', 'X', ' ', '@', ' ']
                + spec_hex2(mem_addr as u8) + seq![' ', '=', ' '] + spec_hex2(stored),
            AddressingMode::ZeroPage_Y => seq!['$'] + spec_hex2(address) + seq![',', 'Y', ' ', '@', ' ']
                + spec_hex2(mem_addr as u8) + seq![' ', '=', ' '] + spec_hex2(stored),
            AddressingMode::Indirect_X => seq!['(', '$'] + spec_hex2(address) + seq![',', 'X', ')', ' ', '@', ' ']
                + spec_hex2(spec_wadd8(address, c.register_x as int)) + seq![' ', '=', ' ']
                + spec_hex4(mem_addr) + seq![' ', '=', ' '] + spec_hex2(stored),
            AddressingMode::Indirect_Y => seq!['(', '$'] + spec_hex2(address) + seq![')', ',', 'Y', ' ', '=', ' ']
                + spec_hex4(spec_wadd16(mem_addr, -(c.register_y as int))) + seq![' ', '@', ' ']
                + spec_hex4(mem_addr) + seq![' ', '=', ' '] + spec_hex2(stored),
            _ => seq!['$'] + spec_hex4(spec_wadd16(spec_wadd16(begin, 2), spec_sign_ext(address) as int)),
        }
    } else {
        let address = spec_cpu_peek16(c, spec_wadd16(begin, 1));
        match info.mode {
            AddressingMode::Absolute => seq!['$'] + spec_hex4(mem_addr) + seq![' ', '=', ' ']
                + spec_hex2(stored),
            AddressingMode::Absolute_X => seq!['$'] + spec_hex4(address) + seq![',', 'X', ' ', '@', ' ']
                + spec_hex4(mem_addr) + seq![' ', '=', ' '] + spec_hex2(stored),
            AddressingMode::Absolute_Y => seq!['$'] + spec_hex4(address) + seq![',', 'Y', ' ', '@', ' ']
                + spec_hex4(mem_addr) + seq![' ', '=', ' '] + spec_hex2(stored),
            _ => {
                if code == 0x6c {
                    let target = if address & 0x00ff == 0x00ff {
                        (spec_cpu_peek(c, address & 0xff00) * 256 + spec_cpu_peek(c, address)) as u16
                    } else {
                        spec_cpu_peek16(c, address)
                    };
                    seq!['(', '$'] + spec_hex4(address) + seq![')', ' ', '=', ' '] + spec_hex4(target)
                } else {
                    seq!['$'] + spec_hex4(address)
                }
            },
        }
    }
}

/// The raw opcode bytes of the line, two hex digits each, space-separated.
pub open spec fn spec_dump_text(c: CpuView, code: u8) -> Seq<char> {
    let begin = c.program_counter;
    let info = spec_opcode(code);
    if info.len == 2 {
        spec_hex2(code) + seq![' '] + spec_hex2(spec_cpu_peek(c, spec_wadd16(begin, 1)))
    } else if info.len == 3 {
        spec_hex2(code) + seq![' '] + spec_hex2(spec_cpu_peek(c, spec_wadd16(begin, 1))) + seq![' ']
            + spec_hex2(spec_cpu_peek(c, spec_wadd16(begin, 2)))
    } else {
        spec_hex2(code)
    }
}

/// One whole trace line.
pub open spec fn spec_trace(c: CpuView) -> Seq<char> {
    let begin = c.program_counter;
    let code = spec_cpu_peek(c, begin);
    let s1 = spec_hex4(begin) + seq![' ', ' '];
    let s2 = s1 + spec_pad_to(spec_dump_text(c, code), 8);
    let s3 = s2 + seq![' '];
    let s4 = s3 + spec_spaces(4 - spec_mnemonic(code).len()) + spec_mnemonic(code);
    let s5 = s4 + seq![' '] + spec_operand_text(c, code);
    let body = spec_trim_right(s5);
    let line = spec_pad_to(body, 47);
    line + seq![' ', 'A', ':'] + spec_hex2(c.register_a) + seq![' ', 'X', ':'] + spec_hex2(
        c.register_x,
    ) + seq![' ', 'Y', ':'] + spec_hex2(c.register_y) + seq![' ', 'P', ':'] + spec_hex2(c.status)
        + seq![' ', 'S', 'P', ':'] + spec_hex2(c.stack_pointer)
}

/// Executable form of `spec_hex_digit`.
pub fn hex_digit(n: u8) -> (r: char)
    ensures
        r == spec_hex_digit(n),
{
    match n & 0xf {
        0 => '0',
        1 => '1',
        2 => '2',
        3 => '3',
        4 => '4',
        5 => '5',
        6 => '6',
        7 => '7',
        8 => '8',
        9 => '9',
        10 => 'A',
        11 => 'B',
        12 => 'C',
        13 => 'D',
        14 => 'E',
        _ => 'F',
    }
}

/// Appends the two hex digits of a byte.
pub fn push_hex2(out: &mut Vec<char>, v: u8)
    ensures
        final(out)@ == old(out)@ + spec_hex2(v),
{
    out.push(hex_digit(v >> 4));
    out.push(hex_digit(v));
    proof {
        assert(out@ =~= old(out)@ + spec_hex2(v));
    }
}

/// Appends the four hex digits of a word.
pub fn push_hex4(out: &mut Vec<char>, v: u16)
    ensures
        final(out)@ == old(out)@ + spec_hex4(v),
{
    push_hex2(out, (v >> 8) as u8);
    push_hex2(out, (v & 0xff) as u8);
    proof {
        assert(out@ =~= old(out)@ + spec_hex4(v));
    }
}

/// Pads with spaces up to width `n`.
pub fn pad_to(out: &mut Vec<char>, n: usize)
    ensures
        final(out)@ == spec_pad_to(old(out)@, n as int),
{
    let ghost base = out@;
    proof {
        assert(out@ =~= base + spec_spaces(0));
    }
    while out.len() < n
        invariant
            out@.len() >= base.len(),
            out@.len() <= if base.len() >= n {
                base.len() as int
            } else {
                n as int
            },
            out@ == base + spec_spaces(out@.len() - base.len()),
        decreases n - out.len(),
    {
        let ghost k = out@.len() - base.len();
        out.push(' ');
        proof {
            assert(spec_spaces(k + 1) == spec_spaces(k).push(' '));
            assert(out@ =~= base + spec_spaces(k + 1));
        }
    }
    proof {
        if base.len() >= n {
            assert(out@ =~= base + spec_spaces(0));
            assert(out@ =~= base);
        }
    }
}

/// Removes trailing spaces.
pub fn trim_right(out: &mut Vec<char>)
    ensures
        final(out)@ == spec_trim_right(old(out)@),
{
    while out.len() > 0 && out[out.len() - 1] == ' '
        invariant
            spec_trim_right(out@) == spec_trim_right(old(out)@),
        decreases out.len(),
    {
        let ghost before = out@;
        out.pop();
        proof {
            assert(out@ =~= before.drop_last());
        }
    }
}

impl CPU {
    /// The value a read at `addr` would return, without performing its side
    /// effects.
    pub fn mem_peek(&self, addr: u16) -> (r: u8)
        requires
            self@.wf(),
        ensures
            r == spec_cpu_peek(self@, addr),
    {
        match &self.mem {
            CpuMem::Flat(bytes) => bytes[addr as usize],
            CpuMem::Bus(bus) => bus.mem_peek(addr),
        }
    }

    /// A peeked little-endian 16-bit value.
    pub fn mem_peek16(&self, pos: u16) -> (r: u16)
        requires
            self@.wf(),
        ensures
            r == spec_cpu_peek16(self@, pos),
    {
        let lo = self.mem_peek(pos);
        let hi = self.mem_peek(pos.wrapping_add(1));
        proof {
            crate::registers::lemma_hi_lo_value(hi, lo);
        }
        ((hi as u16) << 8) | (lo as u16)
    }

    /// Executable form of `spec_peek_absolute_addr`.
    #[verifier::rlimit(100)]
    fn peek_absolute_address(&self, mode: &AddressingMode, at: u16) -> (r: u16)
        requires
            self@.wf(),
        ensures
            r == spec_peek_absolute_addr(self@, *mode, at),
    {
        match mode {
            AddressingMode::ZeroPage => self.mem_peek(at) as u16,
            AddressingMode::Absolute => self.mem_peek16(at),
            AddressingMode::ZeroPage_X => self.mem_peek(at).wrapping_add(self.register_x) as u16,
            AddressingMode::ZeroPage_Y => self.mem_peek(at).wrapping_add(self.register_y) as u16,
            AddressingMode::Absolute_X => self.mem_peek16(at).wrapping_add(self.register_x as u16),
            AddressingMode::Absolute_Y => self.mem_peek16(at).wrapping_add(self.register_y as u16),
            AddressingMode::Indirect_X => {
                let ptr = self.mem_peek(at).wrapping_add(self.register_x);
                let lo = self.mem_peek(ptr as u16);
                let hi = self.mem_peek(ptr.wrapping_add(1) as u16);
                proof {
                    crate::registers::lemma_hi_lo_value(hi, lo);
                }
                ((hi as u16) << 8) | (lo as u16)
            },
            AddressingMode::Indirect_Y => {
                let base = self.mem_peek(at);
                let lo = self.mem_peek(base as u16);
                let hi = self.mem_peek(base.wrapping_add(1) as u16);
                proof {
                    crate::registers::lemma_hi_lo_value(hi, lo);
                }
                let deref_base = ((hi as u16) << 8) | (lo as u16);
                deref_base.wrapping_add(self.register_y as u16)
            },
            _ => 0,
        }
    }


    /// Appends the operand field of the disassembly.
    fn push_operand_text(&self, out: &mut Vec<char>, code: u8)
        requires
            self@.wf(),
        ensures
            final(out)@ == old(out)@ + spec_operand_text(self@, code),
    {
        let info = opcode_info(code);
        if info.len == 1 {
            self.push_operand_len1(out, code);
        } else if info.len == 2 {
            self.push_operand_len2(out, code);
        } else {
            self.push_operand_len3(out, code);
        }
    }

    /// The operand field of a one-byte instruction.
    #[verifier::rlimit(100)]
    fn push_operand_len1(&self, out: &mut Vec<char>, code: u8)
        requires
            self@.wf(),
            spec_opcode(code).len == 1,
        ensures
            final(out)@ == old(out)@ + spec_operand_text(self@, code),
    {
        let begin = self.program_counter;
        let info = opcode_info(code);
        let mem_addr: u16 = match info.mode {
            AddressingMode::Immediate => 0,
            AddressingMode::NoneAddressing => 0,
            _ => self.peek_absolute_address(&info.mode, begin.wrapping_add(1)),
        };
        let stored = self.mem_peek(mem_addr);
            if code == 0x0a || code == 0x4a || code == 0x2a || code == 0x6a {
                out.push('A');
                out.push(' ');
            }
        proof {
            assert(out@ =~= old(out)@ + spec_operand_text(self@, code));
        }
    }

    /// The operand field of a two-byte instruction.
    #[verifier::rlimit(100)]
    fn push_operand_len2(&self, out: &mut Vec<char>, code: u8)
        requires
            self@.wf(),
            spec_opcode(code).len == 2,
        ensures
            final(out)@ == old(out)@ + spec_operand_text(self@, code),
    {
        let begin = self.program_counter;
        let info = opcode_info(code);
        let mem_addr: u16 = match info.mode {
            AddressingMode::Immediate => 0,
            AddressingMode::NoneAddressing => 0,
            _ => self.peek_absolute_address(&info.mode, begin.wrapping_add(1)),
        };
        let stored = self.mem_peek(mem_addr);
            let address = self.mem_peek(begin.wrapping_add(1));
            match info.mode {
                AddressingMode::Immediate => {
                    out.push('#');
                    out.push('$');
                    push_hex2(out, address);
                },
                AddressingMode::ZeroPage => {
                    out.push('$');
                    push_hex2(out, mem_addr as u8);
                    out.push(' ');
                    out.push('=');
                    out.push(' ');
                    push_hex2(out, stored);
                },
                AddressingMode::ZeroPage_X => {
                    out.push('$');
                    push_hex2(out, address);
                    out.push(',');
                    out.push('X');
                    out.push(' ');
                    out.push('@');
                    out.push(' ');
                    push_hex2(out, mem_addr as u8);
                    out.push(' ');
                    out.push('=');
                    out.push(' ');
                    push_hex2(out, stored);
                },
                AddressingMode::ZeroPage_Y => {
                    out.push('$');
                    push_hex2(out, address);
                    out.push(',');
                    out.push('Y');
                    out.push(' ');
                    out.push('@');
                    out.push(' ');
                    push_hex2(out, mem_addr as u8);
                    out.push(' ');
                    out.push('=');
                    out.push(' ');
                    push_hex2(out, stored);
                },
                AddressingMode::Indirect_X => {
                    out.push('(');
                    out.push('$');
                    push_hex2(out, address);
                    out.push(',');
                    out.push('X');
                    out.push(')');
                    out.push(' ');
                    out.push('@');
                    out.push(' ');
                    push_hex2(out, address.wrapping_add(self.register_x));
                    out.push(' ');
                    out.push('=');
                    out.push(' ');
                    push_hex4(out, mem_addr);
                    out.push(' ');
                    out.push('=');
                    out.push(' ');
                    push_hex2(out, stored);
                },
                AddressingMode::Indirect_Y => {
                    out.push('(');
                    out.push('$');
                    push_hex2(out, address);
                    out.push(')');
                    out.push(',');
                    out.push('Y');
                    out.push(' ');
                    out.push('=');
                    out.push(' ');
                    push_hex4(out, mem_addr.wrapping_sub(self.register_y as u16));
                    out.push(' ');
                    out.push('@');
                    out.push(' ');
                    push_hex4(out, mem_addr);
                    out.push(' ');
                    out.push('=');
                    out.push(' ');
                    push_hex2(out, stored);
                },
                _ => {
                    // Relative branch targets.
                    let offset: u16 = if address >= 0x80 {
                        (address as u16) + 0xff00
                    } else {
                        address as u16
                    };
                    let target = begin.wrapping_add(2).wrapping_add(offset);
                    out.push('$');
                    push_hex4(out, target);
                },
            }
        proof {
            assert(out@ =~= old(out)@ + spec_operand_text(self@, code));
        }
    }

    /// The operand field of a three-byte instruction.
    #[verifier::rlimit(100)]
    fn push_operand_len3(&self, out: &mut Vec<char>, code: u8)
        requires
            self@.wf(),
            spec_opcode(code).len != 1,
            spec_opcode(code).len != 2,
        ensures
            final(out)@ == old(out)@ + spec_operand_text(self@, code),
    {
        let begin = self.program_counter;
        let info = opcode_info(code);
        let mem_addr: u16 = match info.mode {
            AddressingMode::Immediate => 0,
            AddressingMode::NoneAddressing => 0,
            _ => self.peek_absolute_address(&info.mode, begin.wrapping_add(1)),
        };
        let stored = self.mem_peek(mem_addr);
            let address = self.mem_peek16(begin.wrapping_add(1));
            match info.mode {
                AddressingMode::Absolute => {
                    out.push('$');
                    push_hex4(out, mem_addr);
                    out.push(' ');
                    out.push('=');
                    out.push(' ');
                    push_hex2(out, stored);
                },
                AddressingMode::Absolute_X => {
                    out.push('$');
                    push_hex4(out, address);
                    out.push(',');
                    out.push('X');
                    out.push(' ');
                    out.push('@');
                    out.push(' ');
                    push_hex4(out, mem_addr);
                    out.push(' ');
                    out.push('=');
                    out.push(' ');
                    push_hex2(out, stored);
                },
                AddressingMode::Absolute_Y => {
                    out.push('$');
                    push_hex4(out, address);
                    out.push(',');
                    out.push('Y');
                    out.push(' ');
                    out.push('@');
                    out.push(' ');
                    push_hex4(out, mem_addr);
                    out.push(' ');
                    out.push('=');
                    out.push(' ');
                    push_hex2(out, stored);
                },
                _ => {
                    if code == 0x6c {
                        let target: u16 = if address & 0x00ff == 0x00ff {
                            let lo = self.mem_peek(address);
                            let hi = self.mem_peek(address & 0xff00);
                            proof {
                                crate::registers::lemma_hi_lo_value(hi, lo);
                            }
                            ((hi as u16) << 8) | (lo as u16)
                        } else {
                            self.mem_peek16(address)
                        };
                        out.push('(');
                        out.push('$');
                        push_hex4(out, address);
                        out.push(')');
                        out.push(' ');
                        out.push('=');
                        out.push(' ');
                        push_hex4(out, target);
                    } else {
                        out.push('$');
                        push_hex4(out, address);
                    }
                },
            }
        proof {
            assert(out@ =~= old(out)@ + spec_operand_text(self@, code));
        }
    }

    /// Formats the instruction at the program counter in nestest style:
    /// `PC  bytes  mnemonic operand` padded to 47 columns, then the register
    /// file.
    #[verifier::rlimit(100)]
    #[verifier::spinoff_prover]
    pub fn trace(&self) -> (r: String)
        requires
            self@.wf(),
        ensures
            r@ == spec_trace(self@),
    {
        let begin = self.program_counter;
        let code = self.mem_peek(begin);
        let info = opcode_info(code);

        let mut out: Vec<char> = Vec::new();
        push_hex4(&mut out, begin);
        out.push(' ');
        out.push(' ');
        let ghost s1 = out@;
        proof {
            assert(s1 =~= spec_hex4(begin) + seq![' ', ' ']);
        }

        // Raw opcode bytes, padded to eight columns.
        push_hex2(&mut out, code);
        if info.len == 2 {
            out.push(' ');
            push_hex2(&mut out, self.mem_peek(begin.wrapping_add(1)));
        } else if info.len == 3 {
            out.push(' ');
            push_hex2(&mut out, self.mem_peek(begin.wrapping_add(1)));
            out.push(' ');
            push_hex2(&mut out, self.mem_peek(begin.wrapping_add(2)));
        }
        proof {
            assert(out@ =~= s1 + spec_dump_text(self@, code));
        }
        pad_to(&mut out, 6 + 8);
        proof {
            assert(s1.len() == 6);
            lemma_pad_shift(s1, spec_dump_text(self@, code), 8);
        }
        out.push(' ');

        // Mnemonic, right-aligned in four columns.
        let mut mn: Vec<char> = Vec::new();
        push_mnemonic(&mut mn, code);
        if mn.len() < 4 {
            let ghost before = out@;
            let mut fill: usize = 4 - mn.len();
            while fill > 0
                invariant
                    out@ == before + spec_spaces(4 - mn@.len() - fill),
                    fill <= 4 - mn@.len(),
                decreases fill,
            {
                out.push(' ');
                proof {
                    assert(out@ =~= before + spec_spaces(4 - mn@.len() - (fill - 1)));
                }
                fill = fill - 1;
            }
        }
        let ghost mn_seq = mn@;
        out.append(&mut mn);
        proof {
            assert(out@ =~= spec_trace_s4(self@, code));
        }
        out.push(' ');

        // Operand text.
        self.push_operand_text(&mut out, code);
        proof {
            assert(out@ == spec_trace_s4(self@, code) + seq![' '] + spec_operand_text(
                self@,
                code,
            ));
        }

        trim_right(&mut out);
        pad_to(&mut out, 47);
        out.push(' ');
        out.push('A');
        out.push(':');
        push_hex2(&mut out, self.register_a);
        out.push(' ');
        out.push('X');
        out.push(':');
        push_hex2(&mut out, self.register_x);
        out.push(' ');
        out.push('Y');
        out.push(':');
        push_hex2(&mut out, self.register_y);
        out.push(' ');
        out.push('P');
        out.push(':');
        push_hex2(&mut out, self.status);
        out.push(' ');
        out.push('S');
        out.push('P');
        out.push(':');
        push_hex2(&mut out, self.stack_pointer);
        proof {
            assert(out@ =~= spec_trace(self@));
        }
        chars_to_string(&out)
    }
}

/// Padding a concatenation to a combined width pads the tail to its own
/// width, when the head is exactly the combined width minus the tail width.
pub proof fn lemma_pad_shift(head: Seq<char>, tail: Seq<char>, n: int)
    ensures
        head + spec_pad_to(tail, n) =~= spec_pad_to(head + tail, head.len() + n),
{
    if tail.len() < n {
        assert(head + (tail + spec_spaces(n - tail.len())) =~= (head + tail) + spec_spaces(
            n - tail.len(),
        ));
    }
}

/// The line up to and including the aligned mnemonic.
pub open spec fn spec_trace_s4(c: CpuView, code: u8) -> Seq<char> {
    let begin = c.program_counter;
    let s1 = spec_hex4(begin) + seq![' ', ' '];
    let s2 = s1 + spec_pad_to(spec_dump_text(c, code), 8);
    let s3 = s2 + seq![' '];
    s3 + spec_spaces(4 - spec_mnemonic(code).len()) + spec_mnemonic(code)
}

impl CpuBus {
    /// The value a bus read would return, without its side effects.
    pub fn mem_peek(&self, addr: u16) -> (r: u8)
        requires
            self@.wf(),
        ensures
            r == spec_cpu_bus_read(self@, addr).1,
    {
        proof {
            reveal(spec_cpu_bus_read);
        }
        let a: u16 = if 0x2008 <= addr && addr <= 0x3fff {
            proof {
                assert(0x2008 <= addr <= 0x3fff ==> 0x2000 <= (addr & 0x2007) <= 0x2007)
                    by (bit_vector);
            }
            addr & 0x2007
        } else {
            addr
        };
        if a <= 0x1fff {
            let idx = a & 0x7ff;
            proof {
                assert((a & 0x7ff) < 2048) by (bit_vector);
            }
            self.vram[idx as usize]
        } else if a == 0x2002 {
            match &self.ppu {
                Some(ppu) => ppu.status.bits,
                None => 0,
            }
        } else if a == 0x2004 {
            match &self.ppu {
                Some(ppu) => ppu.oam_data[ppu.oam_addr as usize],
                None => 0,
            }
        } else if a == 0x2007 {
            match &self.ppu {
                Some(ppu) => {
                    let vaddr = ppu.addr.get();
                    if vaddr < 0x2000 {
                        ppu.bus.internal_data_buf
                    } else if vaddr < 0x3f00 {
                        ppu.bus.internal_data_buf
                    } else {
                        let idx = ppu.bus.palette_index(vaddr);
                        ppu.bus.palette_table[idx as usize]
                    }
                },
                None => 0,
            }
        } else if a == 0x4016 {
            match &self.joypad1 {
                Some(joypad) => {
                    if joypad.button_index > 7 {
                        1
                    } else if joypad.button_status & (1u8 << joypad.button_index) != 0 {
                        1
                    } else {
                        0
                    }
                },
                None => 0,
            }
        } else if a == 0x4017 {
            match &self.joypad2 {
                Some(joypad) => {
                    if joypad.button_index > 7 {
                        1
                    } else if joypad.button_status & (1u8 << joypad.button_index) != 0 {
                        1
                    } else {
                        0
                    }
                },
                None => 0,
            }
        } else if 0x8000 <= a {
            self.peek_prg_rom(a)
        } else {
            0
        }
    }

    /// A PRG-ROM byte, shared with the mutating read path.
    fn peek_prg_rom(&self, addr: u16) -> (r: u8)
        requires
            addr >= 0x8000,
        ensures
            r == crate::cpu_bus::spec_prg_read(self@.prg_rom, addr),
    {
        let mut offset: u16 = addr - 0x8000;
        if self.prg_rom.len() == 0x4000 && offset >= 0x4000 {
            offset = offset % 0x4000;
        }
        if (offset as usize) < self.prg_rom.len() {
            self.prg_rom[offset as usize]
        } else {
            0
        }
    }
}

/// Relies on `String::from_iter` (via `collect`): collecting characters
/// yields the string of exactly those characters, in order.
#[verifier::external_body]
pub fn chars_to_string(chars: &Vec<char>) -> (r: String)
    ensures
        r@ == chars@,
{
    chars.iter().collect()
}

} // verus!
