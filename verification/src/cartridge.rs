//! iNES (version 1) cartridge images.
//!
//! A cartridge is parsed once from raw bytes and is immutable afterwards: it
//! exposes the PRG-ROM, the CHR-ROM and the nametable mirroring mode declared
//! by the header.

use vstd::prelude::*;

verus! {

/// Nametable mirroring mode declared by the cartridge header.
#[derive(Debug, PartialEq, Eq, Clone, Copy, Structural)]
pub enum Mirroring {
    Vertical,
    Horizontal,
    FourScreen,
}

/// Why a byte image was rejected by the loader.
#[derive(Debug, PartialEq, Eq, Clone, Copy, Structural)]
pub enum CartridgeError {
    /// The image is not a well-formed iNES 1 file.
    InvalidFormat,
    /// The image could not be read from its medium.
    Io,
}

pub const PRG_ROM_PAGE_SIZE: usize = 16384;

pub const CHR_ROM_PAGE_SIZE: usize = 8192;

/// A loaded cartridge: PRG-ROM bytes, CHR-ROM bytes, mapper id and mirroring.
pub struct Cartridge {
    pub prg_rom: Vec<u8>,
    pub chr_rom: Vec<u8>,
    pub mapper: u8,
    pub screen_mirroring: Mirroring,
}

/// The four magic bytes `N`, `E`, `S`, `\x1A` open every iNES image.
pub open spec fn spec_has_nes_tag(raw: Seq<u8>) -> bool {
    raw.len() >= 4 && raw[0] == 0x4e && raw[1] == 0x45 && raw[2] == 0x53 && raw[3] == 0x1a
}

/// Mapper id: high nibble from byte 7, low nibble from byte 6.
pub open spec fn spec_mapper(raw: Seq<u8>) -> u8
    recommends
        raw.len() >= 16,
{
    (raw[7] & 0xf0) | (raw[6] >> 4)
}

/// The header's iNES version field (bits 2..4 of byte 7); must be zero.
pub open spec fn spec_ines_version(raw: Seq<u8>) -> u8
    recommends
        raw.len() >= 16,
{
    (raw[7] >> 2) & 0b11
}

/// Mirroring: four-screen bit wins, then the vertical bit.
pub open spec fn spec_mirroring(raw: Seq<u8>) -> Mirroring
    recommends
        raw.len() >= 16,
{
    if raw[6] & 0b1000 != 0 {
        Mirroring::FourScreen
    } else if raw[6] & 0b1 != 0 {
        Mirroring::Vertical
    } else {
        Mirroring::Horizontal
    }
}

pub open spec fn spec_prg_rom_size(raw: Seq<u8>) -> int
    recommends
        raw.len() >= 16,
{
    raw[4] * (PRG_ROM_PAGE_SIZE as int)
}

pub open spec fn spec_chr_rom_size(raw: Seq<u8>) -> int
    recommends
        raw.len() >= 16,
{
    raw[5] * (CHR_ROM_PAGE_SIZE as int)
}

/// PRG starts after the 16-byte header, skipping a 512-byte trainer when
/// byte 6 flags one.
pub open spec fn spec_prg_rom_start(raw: Seq<u8>) -> int
    recommends
        raw.len() >= 16,
{
    16 + if raw[6] & 0b100 != 0 {
        512int
    } else {
        0int
    }
}

/// An image is accepted exactly when the tag matches, the version field is
/// zero, and the declared trainer, PRG and CHR payloads all fit in the bytes
/// given.
pub open spec fn spec_cartridge_ok(raw: Seq<u8>) -> bool {
    &&& raw.len() >= 16
    &&& spec_has_nes_tag(raw)
    &&& spec_ines_version(raw) == 0
    &&& spec_prg_rom_start(raw) + spec_prg_rom_size(raw) + spec_chr_rom_size(raw) <= raw.len()
}

impl Cartridge {
    /// The lengths a parsed cartridge always has: whole PRG pages, whole CHR
    /// pages.
    pub open spec fn wf(self) -> bool {
        &&& self.prg_rom.len() % PRG_ROM_PAGE_SIZE == 0
        &&& self.chr_rom.len() % CHR_ROM_PAGE_SIZE == 0
    }

    /// Parses an iNES 1 image.
    ///
    /// Returns `Ok` exactly on the images `spec_cartridge_ok` admits, and the
    /// parsed parts are the header's slices of the input.
    pub fn new(raw: &Vec<u8>) -> (result: Result<Self, CartridgeError>)
        ensures
            result.is_ok() <==> spec_cartridge_ok(raw@),
            result.is_ok() ==> {
                let cart = result.unwrap();
                &&& cart.wf()
                &&& cart.mapper == spec_mapper(raw@)
                &&& cart.screen_mirroring == spec_mirroring(raw@)
                &&& cart.prg_rom@ == raw@.subrange(
                    spec_prg_rom_start(raw@),
                    spec_prg_rom_start(raw@) + spec_prg_rom_size(raw@),
                )
                &&& cart.chr_rom@ == raw@.subrange(
                    spec_prg_rom_start(raw@) + spec_prg_rom_size(raw@),
                    spec_prg_rom_start(raw@) + spec_prg_rom_size(raw@) + spec_chr_rom_size(raw@),
                )
            },
            result.is_err() ==> result == Err::<Self, CartridgeError>(CartridgeError::InvalidFormat),
    {
        if raw.len() < 16 {
            return Err(CartridgeError::InvalidFormat);
        }
        if !(raw[0] == 0x4e && raw[1] == 0x45 && raw[2] == 0x53 && raw[3] == 0x1a) {
            return Err(CartridgeError::InvalidFormat);
        }

        let mapper = (raw[7] & 0xf0) | (raw[6] >> 4);

        let ines_ver = (raw[7] >> 2) & 0b11;
        if ines_ver != 0 {
            return Err(CartridgeError::InvalidFormat);
        }

        let four_screen = raw[6] & 0b1000 != 0;
        let vertical_mirroring = raw[6] & 0b1 != 0;
        let screen_mirroring = if four_screen {
            Mirroring::FourScreen
        } else if vertical_mirroring {
            Mirroring::Vertical
        } else {
            Mirroring::Horizontal
        };

        let prg_rom_size = (raw[4] as usize) * PRG_ROM_PAGE_SIZE;
        let chr_rom_size = (raw[5] as usize) * CHR_ROM_PAGE_SIZE;

        let skip_trainer = raw[6] & 0b100 != 0;
        let prg_rom_start: usize = if skip_trainer {
            16 + 512
        } else {
            16
        };
        let chr_rom_start = prg_rom_start + prg_rom_size;

        if chr_rom_start + chr_rom_size > raw.len() {
            return Err(CartridgeError::InvalidFormat);
        }

        let prg_rom = copy_range(raw, prg_rom_start, prg_rom_size);
        let chr_rom = copy_range(raw, chr_rom_start, chr_rom_size);

        proof {
            assert(prg_rom.len() % PRG_ROM_PAGE_SIZE == 0) by {
                assert(prg_rom.len() == raw[4] * PRG_ROM_PAGE_SIZE);
            };
            assert(chr_rom.len() % CHR_ROM_PAGE_SIZE == 0) by {
                assert(chr_rom.len() == raw[5] * CHR_ROM_PAGE_SIZE);
            };
        }

        Ok(Self { prg_rom, chr_rom, mapper, screen_mirroring })
    }

    pub fn chr_rom(&self) -> (r: &Vec<u8>)
        ensures
            r == &self.chr_rom,
    {
        &self.chr_rom
    }

    pub fn screen_mirroring(&self) -> (r: &Mirroring)
        ensures
            r == &self.screen_mirroring,
    {
        &self.screen_mirroring
    }
}

/// Copies `len` bytes of `src` starting at `start` into a fresh vector.
fn copy_range(src: &Vec<u8>, start: usize, len: usize) -> (out: Vec<u8>)
    requires
        start + len <= src.len(),
    ensures
        out@ == src@.subrange(start as int, start + len),
{
    let mut out: Vec<u8> = Vec::new();
    let mut i: usize = 0;
    while i < len
        invariant
            start + len <= src.len(),
            i <= len,
            out@ == src@.subrange(start as int, start + i),
        decreases len - i,
    {
        out.push(src[start + i]);
        proof {
            assert(out@ =~= src@.subrange(start as int, start + i + 1));
        }
        i = i + 1;
    }
    out
}

} // verus!
