//! The PPU-side address bus: pattern tables (CHR-ROM), the 2 KiB of nametable
//! RAM behind the cartridge's mirroring mode, and the 32-byte palette with its
//! mirrored entries.  Pattern-table and nametable reads go through the 2C02's
//! one-byte read buffer; palette reads bypass it.

use vstd::prelude::*;
use crate::cartridge::{Cartridge, Mirroring};

verus! {

/// NES PPU connection bus.
pub struct PPUBus {
    pub chr_rom: Vec<u8>,
    pub palette_table: Vec<u8>,
    pub vram: Vec<u8>,
    pub mirroring: Mirroring,
    pub internal_data_buf: u8,
    pub cartridge_connected: bool,
}

/// Mathematical model of the bus: the same state over sequences.
#[verifier::ext_equal]
pub ghost struct PpuBusView {
    pub chr_rom: Seq<u8>,
    pub palette_table: Seq<u8>,
    pub vram: Seq<u8>,
    pub mirroring: Mirroring,
    pub internal_data_buf: u8,
    pub cartridge_connected: bool,
}

impl View for PPUBus {
    type V = PpuBusView;

    open spec fn view(&self) -> PpuBusView {
        PpuBusView {
            chr_rom: self.chr_rom@,
            palette_table: self.palette_table@,
            vram: self.vram@,
            mirroring: self.mirroring,
            internal_data_buf: self.internal_data_buf,
            cartridge_connected: self.cartridge_connected,
        }
    }
}

impl PpuBusView {
    /// Fixed sizes of the bus's memories.
    pub open spec fn wf(self) -> bool {
        &&& self.vram.len() == 2048
        &&& self.palette_table.len() == 32
    }
}

/// A CHR-ROM byte; space past the ROM reads as zero.
pub open spec fn spec_chr_read(chr: Seq<u8>, addr: int) -> u8 {
    if 0 <= addr < chr.len() {
        chr[addr]
    } else {
        0
    }
}

/// Maps a nametable address onto the 2 KiB of physical VRAM.
///
/// `$3000-$3EFF` folds onto `$2000-$2EFF` first.  Vertical mirroring folds
/// tables 2 and 3 onto 0 and 1; horizontal folds 1 onto 0 and 3 onto 2.  The
/// result always stays below 2 KiB: four-screen addressing folds onto the
/// same physical RAM.
pub open spec fn spec_mirror_vram_addr(mirroring: Mirroring, addr: u16) -> u16
    recommends
        0x2000 <= addr < 0x4000,
{
    let mirrored = addr & 0x2fff;
    let index = (mirrored - 0x2000) as u16;
    let name_table = index / 0x400;
    match (mirroring, name_table) {
        (Mirroring::Vertical, 2) => (index - 0x800) as u16,
        (Mirroring::Vertical, 3) => (index - 0x800) as u16,
        (Mirroring::Horizontal, 1) => (index - 0x400) as u16,
        (Mirroring::Horizontal, 2) => (index - 0x400) as u16,
        (Mirroring::Horizontal, 3) => (index - 0x800) as u16,
        _ => (index % 0x800) as u16,
    }
}

/// The palette entry an address selects: the 32 bytes repeat through
/// `$3F00-$3FFF`, and `$3F10/$3F14/$3F18/$3F1C` alias `$3F00/$3F04/$3F08/$3F0C`.
pub open spec fn spec_palette_index(addr: u16) -> u16
    recommends
        0x3f00 <= addr < 0x4000,
{
    let index = (addr - 0x3f00) % 32;
    if index == 0x10 || index == 0x14 || index == 0x18 || index == 0x1c {
        (index - 0x10) as u16
    } else {
        index as u16
    }
}

/// One data read: pattern-table and nametable reads return the buffer and
/// refill it, palette reads return directly.
pub open spec fn spec_ppu_bus_read(bus: PpuBusView, addr: u16) -> (PpuBusView, u8)
    recommends
        addr < 0x4000,
        bus.wf(),
{
    if addr < 0x2000 {
        (
            PpuBusView { internal_data_buf: spec_chr_read(bus.chr_rom, addr as int), ..bus },
            bus.internal_data_buf,
        )
    } else if addr < 0x3f00 {
        (
            PpuBusView {
                internal_data_buf: bus.vram[spec_mirror_vram_addr(bus.mirroring, addr) as int],
                ..bus
            },
            bus.internal_data_buf,
        )
    } else {
        (bus, bus.palette_table[spec_palette_index(addr) as int])
    }
}

/// One data write: pattern-table space is read-only, nametable writes go
/// through the mirroring map, palette writes through the palette map.
pub open spec fn spec_ppu_bus_write(bus: PpuBusView, addr: u16, value: u8) -> PpuBusView
    recommends
        addr < 0x4000,
        bus.wf(),
{
    if addr < 0x2000 {
        bus
    } else if addr < 0x3f00 {
        PpuBusView {
            vram: bus.vram.update(spec_mirror_vram_addr(bus.mirroring, addr) as int, value),
            ..bus
        }
    } else {
        PpuBusView {
            palette_table: bus.palette_table.update(spec_palette_index(addr) as int, value),
            ..bus
        }
    }
}

/// The mirroring map never leaves the 2 KiB of physical VRAM.
pub proof fn lemma_mirror_vram_addr_bounded(mirroring: Mirroring, addr: u16)
    requires
        0x2000 <= addr < 0x4000,
    ensures
        spec_mirror_vram_addr(mirroring, addr) < 0x800,
{
    assert(0x2000 <= addr < 0x4000 ==> 0x2000 <= (addr & 0x2fff) < 0x3000) by (bit_vector);
}

impl PPUBus {
    /// A bus with no cartridge, zeroed memories and vertical mirroring.
    pub fn new() -> (bus: PPUBus)
        ensures
            bus@.wf(),
            bus@ == (PpuBusView {
                chr_rom: Seq::<u8>::empty(),
                palette_table: Seq::new(32, |i: int| 0u8),
                vram: Seq::new(2048, |i: int| 0u8),
                mirroring: Mirroring::Vertical,
                internal_data_buf: 0,
                cartridge_connected: false,
            }),
    {
        let bus = PPUBus {
            chr_rom: Vec::new(),
            palette_table: zero_vec(32),
            vram: zero_vec(2048),
            mirroring: Mirroring::Vertical,
            internal_data_buf: 0,
            cartridge_connected: false,
        };
        proof {
            assert(bus@ =~= PpuBusView {
                chr_rom: Seq::<u8>::empty(),
                palette_table: Seq::new(32, |i: int| 0u8),
                vram: Seq::new(2048, |i: int| 0u8),
                mirroring: Mirroring::Vertical,
                internal_data_buf: 0,
                cartridge_connected: false,
            });
        }
        bus
    }

    /// Test and debugging hook: stores straight into physical VRAM.
    pub fn write_to_vram(&mut self, addr: u16, value: u8)
        requires
            old(self)@.wf(),
            addr < 2048,
        ensures
            final(self)@ == (PpuBusView { vram: old(self)@.vram.update(addr as int, value), ..old(self)@ }),
    {
        self.vram[addr as usize] = value;
        proof {
            assert(self@ =~= PpuBusView { vram: old(self)@.vram.update(addr as int, value), ..old(self)@ });
        }
    }

    pub fn vram(&self) -> (r: &Vec<u8>)
        ensures
            r == &self.vram,
    {
        &self.vram
    }

    pub fn chr_rom(&self) -> (r: &Vec<u8>)
        ensures
            r == &self.chr_rom,
    {
        &self.chr_rom
    }

    pub fn palette_table(&self) -> (r: &Vec<u8>)
        ensures
            r == &self.palette_table,
    {
        &self.palette_table
    }

    pub fn mirroring(&self) -> (r: &Mirroring)
        ensures
            r == &self.mirroring,
    {
        &self.mirroring
    }

    pub fn cartridge_connected(&self) -> (r: bool)
        ensures
            r == self.cartridge_connected,
    {
        self.cartridge_connected
    }

    /// Takes the CHR banks and the mirroring mode from a cartridge.
    pub fn connect_cartridge(&mut self, cartridge: &Cartridge)
        ensures
            final(self)@ == (PpuBusView {
                chr_rom: cartridge.chr_rom@,
                mirroring: cartridge.screen_mirroring,
                cartridge_connected: true,
                ..old(self)@
            }),
    {
        self.chr_rom = clone_bytes(&cartridge.chr_rom);
        self.mirroring = *cartridge.screen_mirroring();
        self.cartridge_connected = true;
        proof {
            assert(self@ =~= PpuBusView {
                chr_rom: cartridge.chr_rom@,
                mirroring: cartridge.screen_mirroring,
                cartridge_connected: true,
                ..old(self)@
            });
        }
    }

    /// Executable form of `spec_mirror_vram_addr`.
    pub fn mirror_vram_addr(&self, addr: u16) -> (r: u16)
        requires
            0x2000 <= addr < 0x4000,
        ensures
            r == spec_mirror_vram_addr(self.mirroring, addr),
            r < 0x800,
    {
        proof {
            lemma_mirror_vram_addr_bounded(self.mirroring, addr);
            assert(0x2000 <= addr < 0x4000 ==> 0x2000 <= (addr & 0x2fff) < 0x3000) by (bit_vector);
        }
        let mirrored = addr & 0x2fff;
        let index: u16 = mirrored - 0x2000;
        let name_table = index / 0x400;
        match (self.mirroring, name_table) {
            (Mirroring::Vertical, 2) => index - 0x800,
            (Mirroring::Vertical, 3) => index - 0x800,
            (Mirroring::Horizontal, 1) => index - 0x400,
            (Mirroring::Horizontal, 2) => index - 0x400,
            (Mirroring::Horizontal, 3) => index - 0x800,
            _ => index % 0x800,
        }
    }

    /// One `$2007`-style read at a bus address.
    pub fn read_data(&mut self, addr: u16) -> (r: u8)
        requires
            old(self)@.wf(),
            addr < 0x4000,
        ensures
            final(self)@ == spec_ppu_bus_read(old(self)@, addr).0,
            r == spec_ppu_bus_read(old(self)@, addr).1,
            final(self)@.wf(),
    {
        if addr < 0x2000 {
            let result = self.internal_data_buf;
            self.internal_data_buf = if (addr as usize) < self.chr_rom.len() {
                self.chr_rom[addr as usize]
            } else {
                0
            };
            proof {
                assert(self@ =~= spec_ppu_bus_read(old(self)@, addr).0);
            }
            result
        } else if addr < 0x3f00 {
            let result = self.internal_data_buf;
            let idx = self.mirror_vram_addr(addr);
            self.internal_data_buf = self.vram[idx as usize];
            proof {
                assert(self@ =~= spec_ppu_bus_read(old(self)@, addr).0);
            }
            result
        } else {
            let idx = self.palette_index(addr);
            self.palette_table[idx as usize]
        }
    }

    /// One `$2007`-style write at a bus address.
    pub fn write_to_data(&mut self, addr: u16, value: u8)
        requires
            old(self)@.wf(),
            addr < 0x4000,
        ensures
            final(self)@ == spec_ppu_bus_write(old(self)@, addr, value),
            final(self)@.wf(),
    {
        if addr < 0x2000 {
            // Pattern tables come from CHR-ROM; the write is dropped.
        } else if addr < 0x3f00 {
            let idx = self.mirror_vram_addr(addr);
            self.vram[idx as usize] = value;
            proof {
                assert(self@ =~= spec_ppu_bus_write(old(self)@, addr, value));
            }
        } else {
            let idx = self.palette_index(addr);
            self.palette_table[idx as usize] = value;
            proof {
                assert(self@ =~= spec_ppu_bus_write(old(self)@, addr, value));
            }
        }
    }

    /// Executable form of `spec_palette_index`.
    pub fn palette_index(&self, addr: u16) -> (r: u16)
        requires
            0x3f00 <= addr < 0x4000,
        ensures
            r == spec_palette_index(addr),
            r < 32,
    {
        let index = (addr - 0x3f00) % 32;
        if index == 0x10 || index == 0x14 || index == 0x18 || index == 0x1c {
            index - 0x10
        } else {
            index
        }
    }
}

/// Two palette addresses that select the same entry read each other's writes
/// back unchanged, in either order: the palette mirrors are genuine aliases.
pub proof fn lemma_palette_mirror_round_trip(bus: PpuBusView, a1: u16, a2: u16, value: u8)
    requires
        bus.wf(),
        0x3f00 <= a1 < 0x4000,
        0x3f00 <= a2 < 0x4000,
        spec_palette_index(a1) == spec_palette_index(a2),
    ensures
        spec_ppu_bus_read(spec_ppu_bus_write(bus, a1, value), a2).1 == value,
        spec_ppu_bus_read(spec_ppu_bus_write(bus, a2, value), a1).1 == value,
{
}

/// A fresh zeroed byte vector of the given length.
pub fn zero_vec(len: usize) -> (out: Vec<u8>)
    ensures
        out@ == Seq::new(len as nat, |i: int| 0u8),
{
    let mut out: Vec<u8> = Vec::new();
    let mut i: usize = 0;
    while i < len
        invariant
            i <= len,
            out@ == Seq::new(i as nat, |j: int| 0u8),
        decreases len - i,
    {
        out.push(0);
        proof {
            assert(out@ =~= Seq::new((i + 1) as nat, |j: int| 0u8));
        }
        i = i + 1;
    }
    out
}

/// A plain element-wise copy of a byte vector.
pub fn clone_bytes(src: &Vec<u8>) -> (out: Vec<u8>)
    ensures
        out@ == src@,
{
    let mut out: Vec<u8> = Vec::new();
    let mut i: usize = 0;
    while i < src.len()
        invariant
            i <= src.len(),
            out@ == src@.subrange(0, i as int),
        decreases src.len() - i,
    {
        out.push(src[i]);
        proof {
            assert(out@ =~= src@.subrange(0, i + 1));
        }
        i = i + 1;
    }
    proof {
        assert(out@ =~= src@);
    }
    out
}

} // verus!
