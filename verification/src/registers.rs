//! The five memory-mapped registers of the picture processing unit.
//!
//! CTRL, MASK and STATUS are bitfields kept as plain bytes with named-bit
//! accessors; ADDR assembles a 14-bit VRAM address from two writes and SCROLL
//! collects the two scroll coordinates, both through a one-bit write latch.

use vstd::prelude::*;

verus! {

// CTRL bits.
pub const CTRL_NAMETABLE1: u8 = 0b0000_0001;

pub const CTRL_NAMETABLE2: u8 = 0b0000_0010;

pub const CTRL_VRAM_ADD_INCREMENT: u8 = 0b0000_0100;

pub const CTRL_SPRITE_PATTERN_ADDR: u8 = 0b0000_1000;

pub const CTRL_BACKGROUND_PATTERN_ADDR: u8 = 0b0001_0000;

pub const CTRL_SPRITE_SIZE: u8 = 0b0010_0000;

pub const CTRL_MASTER_SLAVE_SELECT: u8 = 0b0100_0000;

pub const CTRL_GENERATE_NMI: u8 = 0b1000_0000;

/// `$2000`: nametable select, increment step, pattern bases, sprite size and
/// the vblank-NMI enable.
pub struct ControlRegister {
    pub bits: u8,
}

/// The nametable base address selected by the two low CTRL bits.
pub open spec fn spec_nametable_addr(bits: u8) -> u16 {
    match bits & 0b11 {
        0 => 0x2000u16,
        1 => 0x2400u16,
        2 => 0x2800u16,
        _ => 0x2c00u16,
    }
}

/// The `$2007` address increment: 32 in column mode, else 1.
pub open spec fn spec_vram_addr_increment(bits: u8) -> u8 {
    if bits & CTRL_VRAM_ADD_INCREMENT != 0 {
        32u8
    } else {
        1u8
    }
}

pub open spec fn spec_sprite_pattern_addr(bits: u8) -> u16 {
    if bits & CTRL_SPRITE_PATTERN_ADDR != 0 {
        0x1000u16
    } else {
        0u16
    }
}

pub open spec fn spec_background_pattern_addr(bits: u8) -> u16 {
    if bits & CTRL_BACKGROUND_PATTERN_ADDR != 0 {
        0x1000u16
    } else {
        0u16
    }
}

pub open spec fn spec_generate_vblank_nmi(bits: u8) -> bool {
    bits & CTRL_GENERATE_NMI != 0
}

impl ControlRegister {
    pub fn new() -> (r: ControlRegister)
        ensures
            r.bits == 0,
    {
        ControlRegister { bits: 0 }
    }

    pub fn bits(&self) -> (r: u8)
        ensures
            r == self.bits,
    {
        self.bits
    }

    pub fn update(&mut self, data: u8)
        ensures
            final(self).bits == data,
    {
        self.bits = data;
    }

    /// Sets or clears one named bit.
    pub fn set(&mut self, mask: u8, on: bool)
        ensures
            final(self).bits == if on {
                old(self).bits | mask
            } else {
                old(self).bits & !mask
            },
    {
        if on {
            self.bits = self.bits | mask;
        } else {
            self.bits = self.bits & !mask;
        }
    }

    pub fn nametable_addr(&self) -> (r: u16)
        ensures
            r == spec_nametable_addr(self.bits),
    {
        match self.bits & 0b11 {
            0 => 0x2000,
            1 => 0x2400,
            2 => 0x2800,
            _ => 0x2c00,
        }
    }

    pub fn vram_addr_increment(&self) -> (r: u8)
        ensures
            r == spec_vram_addr_increment(self.bits),
    {
        if self.bits & CTRL_VRAM_ADD_INCREMENT != 0 {
            32
        } else {
            1
        }
    }

    pub fn sprt_pattern_addr(&self) -> (r: u16)
        ensures
            r == spec_sprite_pattern_addr(self.bits),
    {
        if self.bits & CTRL_SPRITE_PATTERN_ADDR != 0 {
            0x1000
        } else {
            0
        }
    }

    pub fn bknd_pattern_addr(&self) -> (r: u16)
        ensures
            r == spec_background_pattern_addr(self.bits),
    {
        if self.bits & CTRL_BACKGROUND_PATTERN_ADDR != 0 {
            0x1000
        } else {
            0
        }
    }

    pub fn generate_vblank_nmi(&self) -> (r: bool)
        ensures
            r == spec_generate_vblank_nmi(self.bits),
    {
        self.bits & CTRL_GENERATE_NMI != 0
    }
}

// MASK bits.
pub const MASK_GREYSCALE: u8 = 0b0000_0001;

pub const MASK_LEFTMOST_8PXL_BACKGROUND: u8 = 0b0000_0010;

pub const MASK_LEFTMOST_8PXL_SPRITE: u8 = 0b0000_0100;

pub const MASK_SHOW_BACKGROUND: u8 = 0b0000_1000;

pub const MASK_SHOW_SPRITES: u8 = 0b0001_0000;

/// `$2001`: rendering enables and emphasis bits.
pub struct MaskRegister {
    pub bits: u8,
}

impl MaskRegister {
    pub fn new() -> (r: MaskRegister)
        ensures
            r.bits == 0,
    {
        MaskRegister { bits: 0 }
    }

    pub fn bits(&self) -> (r: u8)
        ensures
            r == self.bits,
    {
        self.bits
    }

    pub fn update(&mut self, data: u8)
        ensures
            final(self).bits == data,
    {
        self.bits = data;
    }

    pub fn show_background(&self) -> (r: bool)
        ensures
            r == (self.bits & MASK_SHOW_BACKGROUND != 0),
    {
        self.bits & MASK_SHOW_BACKGROUND != 0
    }

    pub fn show_sprites(&self) -> (r: bool)
        ensures
            r == (self.bits & MASK_SHOW_SPRITES != 0),
    {
        self.bits & MASK_SHOW_SPRITES != 0
    }

    pub fn leftmost_8pxl_background(&self) -> (r: bool)
        ensures
            r == (self.bits & MASK_LEFTMOST_8PXL_BACKGROUND != 0),
    {
        self.bits & MASK_LEFTMOST_8PXL_BACKGROUND != 0
    }

    pub fn leftmost_8pxl_sprite(&self) -> (r: bool)
        ensures
            r == (self.bits & MASK_LEFTMOST_8PXL_SPRITE != 0),
    {
        self.bits & MASK_LEFTMOST_8PXL_SPRITE != 0
    }
}

// STATUS bits.
pub const STATUS_SPRITE_OVERFLOW: u8 = 0b0010_0000;

pub const STATUS_SPRITE_ZERO_HIT: u8 = 0b0100_0000;

pub const STATUS_VBLANK_STARTED: u8 = 0b1000_0000;

/// `$2002`: vblank, sprite-0 hit and sprite overflow.
pub struct StatusRegister {
    pub bits: u8,
}

impl StatusRegister {
    pub fn new() -> (r: StatusRegister)
        ensures
            r.bits == 0,
    {
        StatusRegister { bits: 0 }
    }

    pub fn bits(&self) -> (r: u8)
        ensures
            r == self.bits,
    {
        self.bits
    }

    pub fn set_vblank_status(&mut self, on: bool)
        ensures
            final(self).bits == if on {
                old(self).bits | STATUS_VBLANK_STARTED
            } else {
                old(self).bits & !STATUS_VBLANK_STARTED
            },
    {
        if on {
            self.bits = self.bits | STATUS_VBLANK_STARTED;
        } else {
            self.bits = self.bits & !STATUS_VBLANK_STARTED;
        }
    }

    pub fn set_sprite_zero_hit(&mut self, on: bool)
        ensures
            final(self).bits == if on {
                old(self).bits | STATUS_SPRITE_ZERO_HIT
            } else {
                old(self).bits & !STATUS_SPRITE_ZERO_HIT
            },
    {
        if on {
            self.bits = self.bits | STATUS_SPRITE_ZERO_HIT;
        } else {
            self.bits = self.bits & !STATUS_SPRITE_ZERO_HIT;
        }
    }

    pub fn set_sprite_overflow(&mut self, on: bool)
        ensures
            final(self).bits == if on {
                old(self).bits | STATUS_SPRITE_OVERFLOW
            } else {
                old(self).bits & !STATUS_SPRITE_OVERFLOW
            },
    {
        if on {
            self.bits = self.bits | STATUS_SPRITE_OVERFLOW;
        } else {
            self.bits = self.bits & !STATUS_SPRITE_OVERFLOW;
        }
    }

    pub fn reset_vblank_status(&mut self)
        ensures
            final(self).bits == old(self).bits & !STATUS_VBLANK_STARTED,
    {
        self.bits = self.bits & !STATUS_VBLANK_STARTED;
    }

    pub fn is_in_vblank(&self) -> (r: bool)
        ensures
            r == (self.bits & STATUS_VBLANK_STARTED != 0),
    {
        self.bits & STATUS_VBLANK_STARTED != 0
    }

    pub fn contains_sprite_zero_hit(&self) -> (r: bool)
        ensures
            r == (self.bits & STATUS_SPRITE_ZERO_HIT != 0),
    {
        self.bits & STATUS_SPRITE_ZERO_HIT != 0
    }

    /// The value a `$2002` read hands back before its side effects.
    pub fn snapshot(&self) -> (r: u8)
        ensures
            r == self.bits,
    {
        self.bits
    }
}

/// `$2005`: scroll X then scroll Y through the shared write latch.
pub struct ScrollRegister {
    pub scroll_x: u8,
    pub scroll_y: u8,
    pub latch: bool,
}

impl ScrollRegister {
    pub fn new() -> (r: ScrollRegister)
        ensures
            r == (ScrollRegister { scroll_x: 0, scroll_y: 0, latch: false }),
    {
        ScrollRegister { scroll_x: 0, scroll_y: 0, latch: false }
    }

    pub fn scroll_x(&self) -> (r: u8)
        ensures
            r == self.scroll_x,
    {
        self.scroll_x
    }

    pub fn scroll_y(&self) -> (r: u8)
        ensures
            r == self.scroll_y,
    {
        self.scroll_y
    }

    pub fn latch(&self) -> (r: bool)
        ensures
            r == self.latch,
    {
        self.latch
    }

    /// First write sets X, second sets Y; the latch flips on every write.
    pub fn write(&mut self, data: u8)
        ensures
            *final(self) == (ScrollRegister {
                scroll_x: if old(self).latch {
                    old(self).scroll_x
                } else {
                    data
                },
                scroll_y: if old(self).latch {
                    data
                } else {
                    old(self).scroll_y
                },
                latch: !old(self).latch,
            }),
    {
        if !self.latch {
            self.scroll_x = data;
        } else {
            self.scroll_y = data;
        }
        self.latch = !self.latch;
    }

    pub fn reset_latch(&mut self)
        ensures
            *final(self) == (ScrollRegister { latch: false, ..*old(self) }),
    {
        self.latch = false;
    }
}

/// `$2006`: the VRAM address, written high byte then low byte and kept inside
/// the 14-bit PPU address space.
pub struct AddrRegister {
    pub value_hi: u8,
    pub value_lo: u8,
    pub hi_ptr: bool,
}

/// The 16-bit value currently held.
pub open spec fn spec_addr_get(r: AddrRegister) -> u16 {
    ((r.value_hi as u16) << 8) | (r.value_lo as u16)
}

/// Splitting a 16-bit value back into the two bytes.
pub open spec fn spec_addr_set(r: AddrRegister, data: u16) -> AddrRegister {
    AddrRegister { value_hi: (data >> 8) as u8, value_lo: (data & 0xff) as u8, ..r }
}

/// Addresses past `$3FFF` fold back into the PPU address space.
pub open spec fn spec_addr_mirror(r: AddrRegister) -> AddrRegister {
    if spec_addr_get(r) > 0x3fff {
        spec_addr_set(r, spec_addr_get(r) & 0x3fff)
    } else {
        r
    }
}

/// One `$2006` write: high byte first, low byte second, then the fold.
pub open spec fn spec_addr_update(r: AddrRegister, data: u8) -> AddrRegister {
    let written = if r.hi_ptr {
        AddrRegister { value_hi: data, ..r }
    } else {
        AddrRegister { value_lo: data, ..r }
    };
    let flipped = AddrRegister { hi_ptr: !r.hi_ptr, ..written };
    spec_addr_mirror(flipped)
}

/// The `$2007` post-access increment, carrying into the high byte and folding.
pub open spec fn spec_addr_increment(r: AddrRegister, inc: u8) -> AddrRegister {
    let lo = r.value_lo;
    let with_lo = AddrRegister { value_lo: ((lo + inc) % 256) as u8, ..r };
    let carried = if lo + inc > 255 {
        AddrRegister { value_hi: ((r.value_hi + 1) % 256) as u8, ..with_lo }
    } else {
        with_lo
    };
    spec_addr_mirror(carried)
}

/// The two register bytes read back as one plain number.
pub proof fn lemma_hi_lo_value(hi: u8, lo: u8)
    ensures
        ((hi as u16) << 8) | (lo as u16) == hi * 256 + lo,
{
    assert(((hi as u16) << 8) | (lo as u16) == hi * 256 + lo) by (bit_vector);
}

/// `spec_addr_get` as plain arithmetic over the two bytes.
pub proof fn lemma_addr_get_linear(r: AddrRegister)
    ensures
        spec_addr_get(r) == r.value_hi * 256 + r.value_lo,
{
    lemma_hi_lo_value(r.value_hi, r.value_lo);
}

/// Masking to the PPU address space keeps a value there.
pub proof fn lemma_mask_3fff(x: u16)
    ensures
        x & 0x3fff <= 0x3fff,
{
    assert(x & 0x3fff <= 0x3fff) by (bit_vector);
}

/// Reading back a stored 16-bit value returns it unchanged.
pub proof fn lemma_addr_get_set(r: AddrRegister, data: u16)
    ensures
        spec_addr_get(spec_addr_set(r, data)) == data,
{
    lemma_addr_get_linear(spec_addr_set(r, data));
    assert((data >> 8) as u8 * 256 + (data & 0xff) as u8 == data) by (bit_vector);
}

/// After the fold the register always holds a PPU address.
pub proof fn lemma_addr_mirror_bounded(r: AddrRegister)
    ensures
        spec_addr_get(spec_addr_mirror(r)) <= 0x3fff,
{
    if spec_addr_get(r) > 0x3fff {
        let masked = spec_addr_get(r) & 0x3fff;
        lemma_mask_3fff(spec_addr_get(r));
        lemma_addr_get_set(r, masked);
    }
}

/// Both `$2006` writes and `$2007` increments keep the register in range.
pub proof fn lemma_addr_update_bounded(r: AddrRegister, data: u8)
    ensures
        spec_addr_get(spec_addr_update(r, data)) <= 0x3fff,
{
    let written = if r.hi_ptr {
        AddrRegister { value_hi: data, ..r }
    } else {
        AddrRegister { value_lo: data, ..r }
    };
    let flipped = AddrRegister { hi_ptr: !r.hi_ptr, ..written };
    lemma_addr_mirror_bounded(flipped);
}

pub proof fn lemma_addr_increment_bounded(r: AddrRegister, inc: u8)
    ensures
        spec_addr_get(spec_addr_increment(r, inc)) <= 0x3fff,
{
    let lo = r.value_lo;
    let with_lo = AddrRegister { value_lo: ((lo + inc) % 256) as u8, ..r };
    let carried = if lo + inc > 255 {
        AddrRegister { value_hi: ((r.value_hi + 1) % 256) as u8, ..with_lo }
    } else {
        with_lo
    };
    lemma_addr_mirror_bounded(carried);
}

impl AddrRegister {
    pub fn new() -> (r: AddrRegister)
        ensures
            r == (AddrRegister { value_hi: 0, value_lo: 0, hi_ptr: true }),
    {
        AddrRegister { value_hi: 0, value_lo: 0, hi_ptr: true }
    }

    pub fn get(&self) -> (r: u16)
        ensures
            r == spec_addr_get(*self),
    {
        ((self.value_hi as u16) << 8) | (self.value_lo as u16)
    }

    pub fn set(&mut self, data: u16)
        ensures
            *final(self) == spec_addr_set(*old(self), data),
    {
        self.value_hi = (data >> 8) as u8;
        self.value_lo = (data & 0xff) as u8;
    }

    fn mirror_down(&mut self)
        ensures
            *final(self) == spec_addr_mirror(*old(self)),
    {
        let current = self.get();
        if current > 0x3fff {
            self.set(current & 0x3fff);
        }
    }

    pub fn update(&mut self, data: u8)
        ensures
            *final(self) == spec_addr_update(*old(self), data),
    {
        if self.hi_ptr {
            self.value_hi = data;
        } else {
            self.value_lo = data;
        }
        self.hi_ptr = !self.hi_ptr;
        self.mirror_down();
    }

    pub fn increment(&mut self, inc: u8)
        ensures
            *final(self) == spec_addr_increment(*old(self), inc),
    {
        let lo = self.value_lo;
        self.value_lo = lo.wrapping_add(inc);
        if (lo as u16) + (inc as u16) > 255 {
            self.value_hi = self.value_hi.wrapping_add(1);
        }
        self.mirror_down();
    }

    pub fn reset_latch(&mut self)
        ensures
            *final(self) == (AddrRegister { hi_ptr: true, ..*old(self) }),
    {
        self.hi_ptr = true;
    }
}

} // verus!
