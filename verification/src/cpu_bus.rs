//! The CPU-side address bus: 2 KiB of internal RAM mirrored every 2 KiB, the
//! PPU register window with its mirrors, the APU stub, the joypads, OAM DMA
//! and the PRG-ROM window.

use vstd::prelude::*;
use crate::cartridge::Cartridge;
use crate::controller::{Joypad, spec_joypad_read_value, spec_joypad_after_read};
use crate::ppu::{
    Ppu, PpuView, spec_ppu_read_status, spec_ppu_read_data, spec_ppu_write_ctrl,
    spec_ppu_write_oam_data, spec_ppu_write_data, spec_dma_src,
};
use crate::registers::{MaskRegister, ScrollRegister, spec_addr_update};

verus! {

/// NES CPU connection bus.
pub struct CpuBus {
    pub vram: Vec<u8>,
    pub prg_rom: Vec<u8>,
    pub ppu: Option<Ppu>,
    pub joypad1: Option<Joypad>,
    pub joypad2: Option<Joypad>,
}

/// Mathematical model of the bus.
#[verifier::ext_equal]
pub ghost struct CpuBusView {
    pub vram: Seq<u8>,
    pub prg_rom: Seq<u8>,
    pub ppu: Option<PpuView>,
    pub joypad1: Option<Joypad>,
    pub joypad2: Option<Joypad>,
}

impl View for CpuBus {
    type V = CpuBusView;

    open spec fn view(&self) -> CpuBusView {
        CpuBusView {
            vram: self.vram@,
            prg_rom: self.prg_rom@,
            ppu: match self.ppu {
                Some(p) => Some(p@),
                None => None,
            },
            joypad1: self.joypad1,
            joypad2: self.joypad2,
        }
    }
}

impl CpuBusView {
    pub open spec fn wf(self) -> bool {
        &&& self.vram.len() == 2048
        &&& (self.ppu matches Some(p) ==> p.wf())
    }
}

/// Addresses `$2008-$3FFF` fold onto the eight PPU registers.
pub open spec fn spec_effective_addr(addr: u16) -> u16 {
    if 0x2008 <= addr && addr <= 0x3fff {
        addr & 0x2007
    } else {
        addr
    }
}

/// A PRG-ROM read: a single 16 KiB bank appears twice in the 32 KiB window;
/// space without ROM behind it reads as zero.
pub open spec fn spec_prg_read(prg: Seq<u8>, addr: u16) -> u8
    recommends
        addr >= 0x8000,
{
    let offset = addr - 0x8000;
    let index = if prg.len() == 0x4000 && offset >= 0x4000 {
        offset % 0x4000
    } else {
        offset
    };
    if 0 <= index < prg.len() {
        prg[index]
    } else {
        0
    }
}

/// One bus read.  RAM and ROM reads leave the machine unchanged; reads of
/// `$2002`, `$2007` and `$4016/$4017` have their documented side effects.
/// Write-only PPU registers and the APU stub read as zero, as does any
/// register whose device is not connected.
#[verifier::opaque]
pub open spec fn spec_cpu_bus_read(b: CpuBusView, addr: u16) -> (CpuBusView, u8) {
    let a = spec_effective_addr(addr);
    if a <= 0x1fff {
        (b, b.vram[(a & 0x7ff) as int])
    } else if a == 0x2002 {
        match b.ppu {
            Some(p) => {
                let r = spec_ppu_read_status(p);
                (CpuBusView { ppu: Some(r.0), ..b }, r.1)
            },
            None => (b, 0),
        }
    } else if a == 0x2004 {
        match b.ppu {
            Some(p) => (b, p.oam_data[p.oam_addr as int]),
            None => (b, 0),
        }
    } else if a == 0x2007 {
        match b.ppu {
            Some(p) => {
                let r = spec_ppu_read_data(p);
                (CpuBusView { ppu: Some(r.0), ..b }, r.1)
            },
            None => (b, 0),
        }
    } else if a == 0x4016 {
        match b.joypad1 {
            Some(j) => (
                CpuBusView { joypad1: Some(spec_joypad_after_read(j)), ..b },
                spec_joypad_read_value(j),
            ),
            None => (b, 0),
        }
    } else if a == 0x4017 {
        match b.joypad2 {
            Some(j) => (
                CpuBusView { joypad2: Some(spec_joypad_after_read(j)), ..b },
                spec_joypad_read_value(j),
            ),
            None => (b, 0),
        }
    } else if 0x8000 <= a {
        (b, spec_prg_read(b.prg_rom, a))
    } else {
        // Write-only PPU registers, the APU range and open space.
        (b, 0)
    }
}

/// The 256 bytes a DMA burst gathers: sequential reads of one source page,
/// threading the bus state through each read.
pub open spec fn spec_dma_gather(b: CpuBusView, hi: u16, n: nat) -> (CpuBusView, Seq<u8>)
    recommends
        hi <= 0xff00,
        n <= 256,
    decreases n,
{
    if n == 0 {
        (b, Seq::empty())
    } else {
        let prev = spec_dma_gather(b, hi, (n - 1) as nat);
        let r = spec_cpu_bus_read(prev.0, (hi + n - 1) as u16);
        (r.0, prev.1.push(r.1))
    }
}

/// OAM after a DMA burst: every byte of the page lands in OAM, rotated so the
/// first byte goes to the current OAMADDR, which itself ends where it began.
pub open spec fn spec_oam_dma(p: PpuView, data: Seq<u8>) -> PpuView
    recommends
        p.wf(),
        data.len() == 256,
{
    PpuView { oam_data: Seq::new(256, |k: int| data[spec_dma_src(p.oam_addr, k)]), ..p }
}

/// One bus write.
#[verifier::opaque]
pub open spec fn spec_cpu_bus_write(b: CpuBusView, addr: u16, value: u8) -> CpuBusView
    recommends
        b.wf(),
{
    let a = spec_effective_addr(addr);
    if a <= 0x1fff {
        CpuBusView { vram: b.vram.update((a & 0x7ff) as int, value), ..b }
    } else if a == 0x2000 {
        match b.ppu {
            Some(p) => CpuBusView { ppu: Some(spec_ppu_write_ctrl(p, value)), ..b },
            None => b,
        }
    } else if a == 0x2001 {
        match b.ppu {
            Some(p) => CpuBusView {
                ppu: Some(PpuView { mask: MaskRegister { bits: value }, ..p }),
                ..b
            },
            None => b,
        }
    } else if a == 0x2003 {
        match b.ppu {
            Some(p) => CpuBusView { ppu: Some(PpuView { oam_addr: value, ..p }), ..b },
            None => b,
        }
    } else if a == 0x2004 {
        match b.ppu {
            Some(p) => CpuBusView { ppu: Some(spec_ppu_write_oam_data(p, value)), ..b },
            None => b,
        }
    } else if a == 0x2005 {
        match b.ppu {
            Some(p) => CpuBusView {
                ppu: Some(PpuView {
                    scroll: ScrollRegister {
                        scroll_x: if p.scroll.latch {
                            p.scroll.scroll_x
                        } else {
                            value
                        },
                        scroll_y: if p.scroll.latch {
                            value
                        } else {
                            p.scroll.scroll_y
                        },
                        latch: !p.scroll.latch,
                    },
                    ..p
                }),
                ..b
            },
            None => b,
        }
    } else if a == 0x2006 {
        match b.ppu {
            Some(p) => CpuBusView {
                ppu: Some(PpuView { addr: spec_addr_update(p.addr, value), ..p }),
                ..b
            },
            None => b,
        }
    } else if a == 0x2007 {
        match b.ppu {
            Some(p) => CpuBusView { ppu: Some(spec_ppu_write_data(p, value)), ..b },
            None => b,
        }
    } else if a == 0x4014 {
        let gathered = spec_dma_gather(b, (value * 256) as u16, 256);
        match gathered.0.ppu {
            Some(p) => CpuBusView { ppu: Some(spec_oam_dma(p, gathered.1)), ..gathered.0 },
            None => gathered.0,
        }
    } else if a == 0x4016 {
        // The strobe write reaches both pads.
        let b1 = match b.joypad1 {
            Some(j) => CpuBusView {
                joypad1: Some(Joypad {
                    strobe: value & 1 == 1,
                    button_index: if value & 1 == 1 {
                        0u8
                    } else {
                        j.button_index
                    },
                    ..j
                }),
                ..b
            },
            None => b,
        };
        match b1.joypad2 {
            Some(j) => CpuBusView {
                joypad2: Some(Joypad {
                    strobe: value & 1 == 1,
                    button_index: if value & 1 == 1 {
                        0u8
                    } else {
                        j.button_index
                    },
                    ..j
                }),
                ..b1
            },
            None => b1,
        }
    } else {
        // The APU stub, `$4017`, open space and the read-only PRG window.
        b
    }
}

/// Reads of the RAM window see through its mirrors.
pub proof fn lemma_ram_mirror(b: CpuBusView, addr: u16)
    requires
        addr <= 0x1fff,
    ensures
        spec_cpu_bus_read(b, addr) == spec_cpu_bus_read(b, addr & 0x7ff),
{
    reveal(spec_cpu_bus_read);
    assert(addr <= 0x1fff ==> (addr & 0x7ff) <= 0x1fff && ((addr & 0x7ff) & 0x7ff) == (addr
        & 0x7ff)) by (bit_vector);
}

/// Writes to the RAM window land where the mirrored address would.
pub proof fn lemma_ram_mirror_write(b: CpuBusView, addr: u16, value: u8)
    requires
        addr <= 0x1fff,
    ensures
        spec_cpu_bus_write(b, addr, value) == spec_cpu_bus_write(b, addr & 0x7ff, value),
{
    reveal(spec_cpu_bus_write);
    assert(addr <= 0x1fff ==> (addr & 0x7ff) <= 0x1fff && ((addr & 0x7ff) & 0x7ff) == (addr
        & 0x7ff)) by (bit_vector);
}

/// A RAM write read back at the same address returns the written byte.
pub proof fn lemma_ram_round_trip(b: CpuBusView, addr: u16, value: u8)
    requires
        b.wf(),
        addr <= 0x1fff,
    ensures
        spec_cpu_bus_read(spec_cpu_bus_write(b, addr, value), addr).1 == value,
{
    reveal(spec_cpu_bus_read);
    reveal(spec_cpu_bus_write);
    assert((addr & 0x7ff) < 2048) by (bit_vector);
}

/// An access anywhere in `$2008-$3FFF` is the access at `$2000 + (addr & 7)`.
pub proof fn lemma_ppu_register_mirror(b: CpuBusView, addr: u16, value: u8)
    requires
        0x2008 <= addr <= 0x3fff,
    ensures
        spec_cpu_bus_read(b, addr) == spec_cpu_bus_read(b, (0x2000 + (addr & 7)) as u16),
        spec_cpu_bus_write(b, addr, value) == spec_cpu_bus_write(
            b,
            (0x2000 + (addr & 7)) as u16,
            value,
        ),
{
    reveal(spec_cpu_bus_read);
    reveal(spec_cpu_bus_write);
    assert(0x2008 <= addr <= 0x3fff ==> (addr & 0x2007) == 0x2000 + (addr & 7) && (addr & 7)
        <= 7) by (bit_vector);
}

/// With a single 16 KiB PRG bank, the upper half of the window mirrors the
/// lower half.
pub proof fn lemma_prg_mirror(b: CpuBusView, addr: u16)
    requires
        b.prg_rom.len() == 0x4000,
        0xc000 <= addr,
    ensures
        spec_cpu_bus_read(b, addr).1 == spec_cpu_bus_read(b, (addr - 0x4000) as u16).1,
{
    reveal(spec_cpu_bus_read);
}

impl CpuBus {
    /// A bus with zeroed RAM and nothing connected.
    pub fn new() -> (bus: CpuBus)
        ensures
            bus@.wf(),
            bus@ == (CpuBusView {
                vram: Seq::new(2048, |i: int| 0u8),
                prg_rom: Seq::<u8>::empty(),
                ppu: None::<PpuView>,
                joypad1: None::<Joypad>,
                joypad2: None::<Joypad>,
            }),
    {
        let bus = CpuBus {
            vram: crate::ppu_bus::zero_vec(2048),
            prg_rom: Vec::new(),
            ppu: None,
            joypad1: None,
            joypad2: None,
        };
        proof {
            assert(bus@ =~= CpuBusView {
                vram: Seq::new(2048, |i: int| 0u8),
                prg_rom: Seq::<u8>::empty(),
                ppu: None::<PpuView>,
                joypad1: None::<Joypad>,
                joypad2: None::<Joypad>,
            });
        }
        bus
    }

    pub fn cartridge_connected(&self) -> (r: bool)
        ensures
            r == (self@.prg_rom.len() > 0),
    {
        self.prg_rom.len() > 0
    }

    /// Takes the PRG banks from a cartridge.
    pub fn connect_cartridge(&mut self, cartridge: &Cartridge)
        ensures
            final(self)@ == (CpuBusView { prg_rom: cartridge.prg_rom@, ..old(self)@ }),
    {
        self.prg_rom = crate::ppu_bus::clone_bytes(&cartridge.prg_rom);
        proof {
            assert(self@ =~= CpuBusView { prg_rom: cartridge.prg_rom@, ..old(self)@ });
        }
    }

    /// Hands the PPU to the bus.
    pub fn connect_ppu(&mut self, ppu: Ppu)
        ensures
            final(self)@ == (CpuBusView { ppu: Some(ppu@), ..old(self)@ }),
    {
        self.ppu = Some(ppu);
        proof {
            assert(self@ =~= CpuBusView { ppu: Some(ppu@), ..old(self)@ });
        }
    }

    /// Hands joypad 1 to the bus.
    pub fn connect_joypad1(&mut self, joypad: Joypad)
        ensures
            final(self)@ == (CpuBusView { joypad1: Some(joypad), ..old(self)@ }),
    {
        self.joypad1 = Some(joypad);
        proof {
            assert(self@ =~= CpuBusView { joypad1: Some(joypad), ..old(self)@ });
        }
    }

    /// Hands joypad 2 to the bus.
    pub fn connect_joypad2(&mut self, joypad: Joypad)
        ensures
            final(self)@ == (CpuBusView { joypad2: Some(joypad), ..old(self)@ }),
    {
        self.joypad2 = Some(joypad);
        proof {
            assert(self@ =~= CpuBusView { joypad2: Some(joypad), ..old(self)@ });
        }
    }

    /// Polls and consumes the PPU's pending-NMI flag; false with no PPU.
    pub fn poll_nmi_status(&mut self) -> (r: bool)
        ensures
            match old(self)@.ppu {
                Some(p) => r == p.nmi_interrupt && final(self)@ == (CpuBusView {
                    ppu: Some(PpuView { nmi_interrupt: false, ..p }),
                    ..old(self)@
                }),
                None => r == false && final(self)@ == old(self)@,
            },
    {
        match &mut self.ppu {
            Some(ppu) => {
                let r = ppu.poll_nmi_status();
                proof {
                    assert(self@ =~= CpuBusView {
                        ppu: Some(PpuView { nmi_interrupt: false, ..old(self)@.ppu.unwrap() }),
                        ..old(self)@
                    });
                }
                r
            },
            None => false,
        }
    }

    /// Executable form of `spec_prg_read`.
    fn read_prg_rom(&self, addr: u16) -> (r: u8)
        requires
            addr >= 0x8000,
        ensures
            r == spec_prg_read(self@.prg_rom, addr),
    {
        let mut offset: u16 = addr - 0x8000;
        if self.prg_rom.len() == 0x4000 && offset >= 0x4000 {
            offset = offset % 0x4000;
        }
        if (offset as usize) < self.prg_rom.len() {
            self.prg_rom[offset as usize]
        } else {
            0
        }
    }

    /// One bus read; follows `spec_cpu_bus_read` exactly.
    pub fn mem_read(&mut self, addr: u16) -> (r: u8)
        requires
            old(self)@.wf(),
        ensures
            final(self)@ == spec_cpu_bus_read(old(self)@, addr).0,
            r == spec_cpu_bus_read(old(self)@, addr).1,
            final(self)@.wf(),
    {
        proof {
            reveal(spec_cpu_bus_read);
        }
        let a: u16 = if 0x2008 <= addr && addr <= 0x3fff {
            proof {
                assert(0x2008 <= addr <= 0x3fff ==> 0x2000 <= (addr & 0x2007) <= 0x2007)
                    by (bit_vector);
            }
            addr & 0x2007
        } else {
            addr
        };
        if a <= 0x1fff {
            let idx = a & 0x7ff;
            proof {
                assert((a & 0x7ff) < 2048) by (bit_vector);
            }
            self.vram[idx as usize]
        } else if a == 0x2002 {
            match &mut self.ppu {
                Some(ppu) => {
                    let r = ppu.read_status();
                    proof {
                        assert(self@ =~= spec_cpu_bus_read(old(self)@, addr).0);
                    }
                    r
                },
                None => 0,
            }
        } else if a == 0x2004 {
            match &self.ppu {
                Some(ppu) => ppu.read_oam_data(),
                None => 0,
            }
        } else if a == 0x2007 {
            match &mut self.ppu {
                Some(ppu) => {
                    let r = ppu.read_data();
                    proof {
                        assert(self@ =~= spec_cpu_bus_read(old(self)@, addr).0);
                    }
                    r
                },
                None => 0,
            }
        } else if a == 0x4016 {
            match &mut self.joypad1 {
                Some(joypad) => {
                    let r = joypad.read();
                    proof {
                        assert(self@ =~= spec_cpu_bus_read(old(self)@, addr).0);
                    }
                    r
                },
                None => 0,
            }
        } else if a == 0x4017 {
            match &mut self.joypad2 {
                Some(joypad) => {
                    let r = joypad.read();
                    proof {
                        assert(self@ =~= spec_cpu_bus_read(old(self)@, addr).0);
                    }
                    r
                },
                None => 0,
            }
        } else if 0x8000 <= a {
            self.read_prg_rom(a)
        } else {
            0
        }
    }

    /// One bus write; follows `spec_cpu_bus_write` exactly.
    pub fn mem_write(&mut self, addr: u16, data: u8)
        requires
            old(self)@.wf(),
        ensures
            final(self)@ == spec_cpu_bus_write(old(self)@, addr, data),
            final(self)@.wf(),
    {
        proof {
            reveal(spec_cpu_bus_write);
        }
        let a: u16 = if 0x2008 <= addr && addr <= 0x3fff {
            proof {
                assert(0x2008 <= addr <= 0x3fff ==> 0x2000 <= (addr & 0x2007) <= 0x2007)
                    by (bit_vector);
            }
            addr & 0x2007
        } else {
            addr
        };
        if a <= 0x1fff {
            let idx = a & 0x7ff;
            proof {
                assert((a & 0x7ff) < 2048) by (bit_vector);
            }
            self.vram[idx as usize] = data;
            proof {
                assert(self@ =~= spec_cpu_bus_write(old(self)@, addr, data));
            }
        } else if a == 0x2000 {
            match &mut self.ppu {
                Some(ppu) => {
                    ppu.write_to_ctrl(data);
                    proof {
                        assert(self@ =~= spec_cpu_bus_write(old(self)@, addr, data));
                    }
                },
                None => {},
            }
        } else if a == 0x2001 {
            match &mut self.ppu {
                Some(ppu) => {
                    ppu.write_to_mask(data);
                    proof {
                        assert(self@ =~= spec_cpu_bus_write(old(self)@, addr, data));
                    }
                },
                None => {},
            }
        } else if a == 0x2003 {
            match &mut self.ppu {
                Some(ppu) => {
                    ppu.write_to_oam_addr(data);
                    proof {
                        assert(self@ =~= spec_cpu_bus_write(old(self)@, addr, data));
                    }
                },
                None => {},
            }
        } else if a == 0x2004 {
            match &mut self.ppu {
                Some(ppu) => {
                    ppu.write_to_oam_data(data);
                    proof {
                        assert(self@ =~= spec_cpu_bus_write(old(self)@, addr, data));
                    }
                },
                None => {},
            }
        } else if a == 0x2005 {
            match &mut self.ppu {
                Some(ppu) => {
                    ppu.write_to_scroll(data);
                    proof {
                        assert(self@ =~= spec_cpu_bus_write(old(self)@, addr, data));
                    }
                },
                None => {},
            }
        } else if a == 0x2006 {
            match &mut self.ppu {
                Some(ppu) => {
                    ppu.write_to_ppu_addr(data);
                    proof {
                        assert(self@ =~= spec_cpu_bus_write(old(self)@, addr, data));
                    }
                },
                None => {},
            }
        } else if a == 0x2007 {
            match &mut self.ppu {
                Some(ppu) => {
                    ppu.write_to_data(data);
                    proof {
                        assert(self@ =~= spec_cpu_bus_write(old(self)@, addr, data));
                    }
                },
                None => {},
            }
        } else if a == 0x4014 {
            self.oam_dma(data);
        } else if a == 0x4016 {
            match &mut self.joypad1 {
                Some(joypad) => {
                    joypad.write(data);
                },
                None => {},
            }
            match &mut self.joypad2 {
                Some(joypad) => {
                    joypad.write(data);
                },
                None => {},
            }
            proof {
                assert(self@ =~= spec_cpu_bus_write(old(self)@, addr, data));
            }
        } else {
            // APU stub, `$4017`, open space, or the read-only PRG window.
        }
    }

    /// The `$4014` burst: gathers one source page, then fills OAM.
    fn oam_dma(&mut self, page: u8)
        requires
            old(self)@.wf(),
        ensures
            final(self)@ == spec_cpu_bus_write(old(self)@, 0x4014, page),
            final(self)@.wf(),
    {
        proof {
            reveal(spec_cpu_bus_write);
        }
        proof {
            crate::registers::lemma_hi_lo_value(page, 0);
            assert(((page as u16) << 8) | (0u8 as u16) == (page as u16) << 8) by (bit_vector);
        }
        let hi: u16 = (page as u16) << 8;
        let mut buffer: Vec<u8> = Vec::new();
        let mut i: usize = 0;
        while i < 256
            invariant
                self@.wf(),
                i <= 256,
                hi == page * 256,
                self@ == spec_dma_gather(old(self)@, hi, i as nat).0,
                buffer@ == spec_dma_gather(old(self)@, hi, i as nat).1,
                buffer@.len() == i,
            decreases 256 - i,
        {
            let v = self.mem_read(hi + i as u16);
            buffer.push(v);
            i = i + 1;
        }
        match &mut self.ppu {
            Some(ppu) => {
                ppu.write_oam_dma(&buffer);
                proof {
                    assert(self@ =~= spec_cpu_bus_write(old(self)@, 0x4014, page));
                }
            },
            None => {
                proof {
                    assert(self@ =~= spec_cpu_bus_write(old(self)@, 0x4014, page));
                }
            },
        }
    }

    /// Two little-endian bus reads.
    pub fn mem_read_u16(&mut self, pos: u16) -> (r: u16)
        requires
            old(self)@.wf(),
        ensures
            final(self)@ == spec_cpu_bus_read16(old(self)@, pos).0,
            r == spec_cpu_bus_read16(old(self)@, pos).1,
            final(self)@.wf(),
    {
        let lo = self.mem_read(pos);
        let hi = self.mem_read(pos.wrapping_add(1));
        proof {
            crate::registers::lemma_hi_lo_value(hi, lo);
        }
        ((hi as u16) << 8) | (lo as u16)
    }

    /// Two little-endian bus writes.
    pub fn mem_write_u16(&mut self, pos: u16, data: u16)
        requires
            old(self)@.wf(),
        ensures
            final(self)@ == spec_cpu_bus_write16(old(self)@, pos, data),
            final(self)@.wf(),
    {
        let hi = (data >> 8) as u8;
        let lo = (data & 0xff) as u8;
        self.mem_write(pos, lo);
        self.mem_write(pos.wrapping_add(1), hi);
    }
}

/// A 16-bit read: low byte first, high byte at the next address (wrapping).
pub open spec fn spec_cpu_bus_read16(b: CpuBusView, pos: u16) -> (CpuBusView, u16) {
    let lo = spec_cpu_bus_read(b, pos);
    let hi = spec_cpu_bus_read(lo.0, ((pos + 1) % 0x10000) as u16);
    (hi.0, (hi.1 * 256 + lo.1) as u16)
}

/// A 16-bit write: low byte first, high byte at the next address (wrapping).
pub open spec fn spec_cpu_bus_write16(b: CpuBusView, pos: u16, data: u16) -> CpuBusView {
    let b1 = spec_cpu_bus_write(b, pos, (data & 0xff) as u8);
    spec_cpu_bus_write(b1, ((pos + 1) % 0x10000) as u16, (data >> 8) as u8)
}

} // verus!
