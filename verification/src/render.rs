//! Background and sprite rendering.
//!
//! Every painting pass is specified as a fold of single-pixel writes over a
//! grid: a spec-level function gives the pixel each grid cell paints (or
//! none), and `spec_paint_grid` folds those writes over the framebuffer in
//! the order the executable loops perform them.

use vstd::prelude::*;
use crate::cartridge::{Cartridge, Mirroring};
use crate::frame::{Frame, FRAME_WIDTH, FRAME_HEIGHT, spec_set_pixel};
use crate::palette::{system_palette, spec_system_palette};
use crate::ppu::Ppu;
use crate::ppu_bus::{PPUBus, PpuBusView, spec_chr_read};
use crate::registers::{
    ControlRegister, MaskRegister, StatusRegister, spec_background_pattern_addr,
    spec_sprite_pattern_addr, spec_nametable_addr, MASK_SHOW_BACKGROUND, MASK_SHOW_SPRITES,
    MASK_LEFTMOST_8PXL_BACKGROUND, MASK_LEFTMOST_8PXL_SPRITE, STATUS_SPRITE_ZERO_HIT,
};

verus! {

/// A paint viewport in source coordinates.
pub struct Rect {
    pub x1: usize,
    pub y1: usize,
    pub x2: usize,
    pub y2: usize,
}

impl Rect {
    pub fn new(x1: usize, y1: usize, x2: usize, y2: usize) -> (r: Rect)
        ensures
            r == (Rect { x1, y1, x2, y2 }),
    {
        Rect { x1, y1, x2, y2 }
    }
}

/// One pixel write, or none, for a grid cell.
pub type PaintCell = Option<(u16, u16, (u8, u8, u8))>;

/// The frame after one cell's write.
pub open spec fn spec_paint_cell(
    f: spec_fn(int, int) -> PaintCell,
    i: int,
    j: int,
    frame: Seq<u8>,
) -> Seq<u8> {
    match f(i, j) {
        Some(p) => spec_set_pixel(frame, p.0 as int, p.1 as int, p.2),
        None => frame,
    }
}

/// The frame after the first `j` cells of row `i`.
pub open spec fn spec_paint_row(
    f: spec_fn(int, int) -> PaintCell,
    i: int,
    j: int,
    frame: Seq<u8>,
) -> Seq<u8>
    decreases j,
{
    if j <= 0 {
        frame
    } else {
        spec_paint_cell(f, i, j - 1, spec_paint_row(f, i, j - 1, frame))
    }
}

/// The frame after the first `i` rows, each `nj` cells wide.
pub open spec fn spec_paint_grid(
    f: spec_fn(int, int) -> PaintCell,
    i: int,
    nj: int,
    frame: Seq<u8>,
) -> Seq<u8>
    decreases i,
{
    if i <= 0 {
        frame
    } else {
        spec_paint_row(f, i - 1, nj, spec_paint_grid(f, i - 1, nj, frame))
    }
}

/// Painting never changes the frame's size.
pub proof fn lemma_paint_row_len(
    f: spec_fn(int, int) -> PaintCell,
    i: int,
    j: int,
    frame: Seq<u8>,
)
    ensures
        spec_paint_row(f, i, j, frame).len() == frame.len(),
    decreases j,
{
    if j > 0 {
        lemma_paint_row_len(f, i, j - 1, frame);
    }
}

pub proof fn lemma_paint_grid_len(
    f: spec_fn(int, int) -> PaintCell,
    i: int,
    nj: int,
    frame: Seq<u8>,
)
    ensures
        spec_paint_grid(f, i, nj, frame).len() == frame.len(),
    decreases i,
{
    if i > 0 {
        lemma_paint_grid_len(f, i - 1, nj, frame);
        lemma_paint_row_len(f, i - 1, nj, spec_paint_grid(f, i - 1, nj, frame));
    }
}

/// A two-bit field is at most three.
pub proof fn lemma_two_bits(x: u8)
    ensures
        x & 0b11 <= 3,
{
    assert(x & 0b11 <= 3) by (bit_vector);
}

/// A CHR byte with the ROM's bounds applied.
pub fn chr_read(chr: &Vec<u8>, index: usize) -> (r: u8)
    ensures
        r == spec_chr_read(chr@, index as int),
{
    if index < chr.len() {
        chr[index]
    } else {
        0
    }
}

/// The two-bit pixel value of tile `tile_idx` at in-tile position
/// (`x`, `y`), from the pattern bank at `bank`.
pub open spec fn spec_tile_value(
    chr: Seq<u8>,
    bank: int,
    tile_idx: int,
    x: int,
    y: int,
) -> u8
    recommends
        0 <= x < 8,
        0 <= y < 8,
{
    let upper = spec_chr_read(chr, bank + tile_idx * 16 + y);
    let lower = spec_chr_read(chr, bank + tile_idx * 16 + y + 8);
    (((lower >> ((7 - x) as u8)) & 1) << 1) | ((upper >> ((7 - x) as u8)) & 1)
}

/// Executable form of `spec_tile_value`.
pub fn tile_value(chr: &Vec<u8>, bank: usize, tile_idx: u8, x: u8, y: u8) -> (r: u8)
    requires
        bank <= 0x1000,
        x < 8,
        y < 8,
    ensures
        r == spec_tile_value(chr@, bank as int, tile_idx as int, x as int, y as int),
{
    let base = bank + (tile_idx as usize) * 16 + (y as usize);
    let upper = chr_read(chr, base);
    let lower = chr_read(chr, base + 8);
    (((lower >> (7 - x)) & 1) << 1) | ((upper >> (7 - x)) & 1)
}

/// The background palette for the 4x4-tile block holding (`col`, `row`):
/// the universal colour and the three colours of the selected sub-palette.
pub open spec fn spec_bg_palette(bus: PpuBusView, nt_base: int, col: int, row: int) -> (
    u8,
    u8,
    u8,
    u8,
)
    recommends
        bus.wf(),
        0 <= col < 32,
        0 <= row < 30,
        nt_base == 0 || nt_base == 0x400,
{
    let attr = bus.vram[nt_base + 0x3c0 + (row / 4) * 8 + col / 4];
    let select = ((row % 4) / 2) * 2 + (col % 4) / 2;
    let idx = (attr >> ((select * 2) as u8)) & 0b11;
    let start = 1 + idx * 4;
    (bus.palette_table[0], bus.palette_table[start as int], bus.palette_table[start + 1], bus.palette_table[start + 2])
}

/// Executable form of `spec_bg_palette`.
pub fn bg_palette(bus: &PPUBus, nt_base: usize, col: usize, row: usize) -> (r: (u8, u8, u8, u8))
    requires
        bus@.wf(),
        col < 32,
        row < 30,
        nt_base == 0 || nt_base == 0x400,
    ensures
        r == spec_bg_palette(bus@, nt_base as int, col as int, row as int),
{
    let attr = bus.vram[nt_base + 0x3c0 + (row / 4) * 8 + col / 4];
    let select = ((row % 4) / 2) * 2 + (col % 4) / 2;
    let idx = (attr >> ((select * 2) as u8)) & 0b11;
    proof {
        lemma_two_bits(attr >> ((select * 2) as u8));
    }
    let start: usize = 1 + (idx as usize) * 4;
    (bus.palette_table[0], bus.palette_table[start], bus.palette_table[start + 1], bus.palette_table[start + 2])
}

/// The three colours of one sprite palette.
pub open spec fn spec_sprite_palette(bus: PpuBusView, pal_idx: u8) -> (u8, u8, u8)
    recommends
        bus.wf(),
        pal_idx < 4,
{
    let start = 0x11 + pal_idx * 4;
    (bus.palette_table[start as int], bus.palette_table[start + 1], bus.palette_table[start + 2])
}

/// Executable form of `spec_sprite_palette`.
pub fn sprite_palette(bus: &PPUBus, pal_idx: u8) -> (r: (u8, u8, u8))
    requires
        bus@.wf(),
        pal_idx < 4,
    ensures
        r == spec_sprite_palette(bus@, pal_idx),
{
    let start: usize = 0x11 + (pal_idx as usize) * 4;
    (bus.palette_table[start], bus.palette_table[start + 1], bus.palette_table[start + 2])
}

/// The pixel sprite `i` paints at its cell `j` (row `j / 8`, column
/// `7 - j % 8`), or none where the sprite is transparent there.
pub open spec fn spec_sprite_px(
    oam: Seq<u8>,
    bus: PpuBusView,
    ctrl_bits: u8,
    i: int,
    j: int,
) -> PaintCell
    recommends
        bus.wf(),
        oam.len() == 256,
        0 <= i < 64,
        0 <= j < 64,
{
    let tile_idx = oam[i * 4 + 1];
    let tile_x = oam[i * 4 + 3];
    let tile_y = oam[i * 4];
    let attr = oam[i * 4 + 2];
    let flip_vertical = (attr >> 7) & 1 == 1;
    let flip_horizontal = (attr >> 6) & 1 == 1;
    let pal_idx = attr & 0b11;
    let bank = spec_sprite_pattern_addr(ctrl_bits);
    let y = j / 8;
    let x = 7 - j % 8;
    let value = spec_tile_value(bus.chr_rom, bank as int, tile_idx as int, x, y);
    if value == 0 {
        None
    } else {
        let pal = spec_sprite_palette(bus, pal_idx);
        let rgb = if value == 1 {
            spec_system_palette(pal.0)
        } else if value == 2 {
            spec_system_palette(pal.1)
        } else {
            spec_system_palette(pal.2)
        };
        let px = if flip_horizontal {
            tile_x + 7 - x
        } else {
            tile_x + x
        };
        let py = if flip_vertical {
            tile_y + 7 - y
        } else {
            tile_y + y
        };
        Some((px as u16, py as u16, rgb))
    }
}

/// Executable form of `spec_sprite_px`.
pub fn sprite_px(
    oam: &Vec<u8>,
    bus: &PPUBus,
    ctrl: &ControlRegister,
    i: usize,
    j: usize,
) -> (r: PaintCell)
    requires
        bus@.wf(),
        oam@.len() == 256,
        i < 64,
        j < 64,
    ensures
        r == spec_sprite_px(oam@, bus@, ctrl.bits, i as int, j as int),
{
    let tile_idx = oam[i * 4 + 1];
    let tile_x = oam[i * 4 + 3];
    let tile_y = oam[i * 4];
    let attr = oam[i * 4 + 2];
    let flip_vertical = (attr >> 7) & 1 == 1;
    let flip_horizontal = (attr >> 6) & 1 == 1;
    let pal_idx = attr & 0b11;
    proof {
        lemma_two_bits(attr);
    }
    let bank = ctrl.sprt_pattern_addr();
    let y = (j / 8) as u8;
    let x = (7 - j % 8) as u8;
    let value = tile_value(&bus.chr_rom, bank as usize, tile_idx, x, y);
    if value == 0 {
        None
    } else {
        let pal = sprite_palette(bus, pal_idx);
        let rgb = if value == 1 {
            system_palette(pal.0)
        } else if value == 2 {
            system_palette(pal.1)
        } else {
            system_palette(pal.2)
        };
        let px: u16 = if flip_horizontal {
            tile_x as u16 + 7 - x as u16
        } else {
            tile_x as u16 + x as u16
        };
        let py: u16 = if flip_vertical {
            tile_y as u16 + 7 - y as u16
        } else {
            tile_y as u16 + y as u16
        };
        Some((px, py, rgb))
    }
}

/// The cell function of the whole sprite pass: row `k` paints sprite
/// `63 - k`, so lower-numbered sprites land on top.
pub open spec fn spec_sprites_cell(oam: Seq<u8>, bus: PpuBusView, ctrl_bits: u8) -> spec_fn(
    int,
    int,
) -> PaintCell {
    |k: int, j: int| spec_sprite_px(oam, bus, ctrl_bits, 63 - k, j)
}

/// The frame after the sprite pass.
pub open spec fn spec_render_sprites(
    oam: Seq<u8>,
    bus: PpuBusView,
    ctrl_bits: u8,
    frame: Seq<u8>,
) -> Seq<u8> {
    spec_paint_grid(spec_sprites_cell(oam, bus, ctrl_bits), 64, 64, frame)
}

/// Paints all 64 sprites into a frame, last OAM entry first.
pub fn render_sprites(
    oam: &Vec<u8>,
    bus: &PPUBus,
    ctrl: &ControlRegister,
    frame: &mut Frame,
)
    requires
        bus@.wf(),
        oam@.len() == 256,
    ensures
        final(frame).data@ == spec_render_sprites(oam@, bus@, ctrl.bits, old(frame).data@),
{
    let ghost f = spec_sprites_cell(oam@, bus@, ctrl.bits);
    let ghost frame0 = frame.data@;
    let mut k: usize = 0;
    while k < 64
        invariant
            bus@.wf(),
            oam@.len() == 256,
            k <= 64,
            frame.data@ == spec_paint_grid(f, k as int, 64, frame0),
            f == spec_sprites_cell(oam@, bus@, ctrl.bits),
        decreases 64 - k,
    {
        let i = 63 - k;
        let ghost row_base = frame.data@;
        let mut j: usize = 0;
        while j < 64
            invariant
                bus@.wf(),
                oam@.len() == 256,
                k < 64,
                i == 63 - k,
                j <= 64,
                frame.data@ == spec_paint_row(f, k as int, j as int, row_base),
                f == spec_sprites_cell(oam@, bus@, ctrl.bits),
        decreases 64 - j,
        {
            let cell = sprite_px(oam, bus, ctrl, i, j);
            match cell {
                Some(p) => {
                    frame.set_pixel(p.0 as usize, p.1 as usize, p.2);
                },
                None => {},
            }
            j = j + 1;
        }
        k = k + 1;
    }
}

/// Whether the background is drawn at this dot: it must be enabled, and the
/// leftmost eight pixels only with their MASK bit.
pub open spec fn spec_bg_visible(mask_bits: u8, cycle: int) -> bool {
    &&& mask_bits & MASK_SHOW_BACKGROUND != 0
    &&& (mask_bits & MASK_LEFTMOST_8PXL_BACKGROUND != 0 || cycle >= 8)
}

/// The physical base offsets (main, second) of the two nametables the
/// current CTRL selection and mirroring put on screen.  Four-screen images
/// fall back to the vertical arrangement.
pub open spec fn spec_nametable_bases(mirroring: Mirroring, nta: u16) -> (int, int) {
    match mirroring {
        Mirroring::Horizontal => {
            if nta == 0x2000 || nta == 0x2400 {
                (0int, 0x400int)
            } else {
                (0x400int, 0int)
            }
        },
        _ => {
            if nta == 0x2000 || nta == 0x2800 {
                (0int, 0x400int)
            } else {
                (0x400int, 0int)
            }
        },
    }
}

/// Whether any opaque pixel of OAM entry 0 covers the given screen position,
/// with sprite visibility rules applied.
pub open spec fn spec_sprite_zero_hit_at(
    mask_bits: u8,
    oam: Seq<u8>,
    bus: PpuBusView,
    ctrl_bits: u8,
    test_x: int,
    test_y: int,
) -> bool
    recommends
        bus.wf(),
        oam.len() == 256,
{
    &&& mask_bits & MASK_SHOW_SPRITES != 0
    &&& (mask_bits & MASK_LEFTMOST_8PXL_SPRITE != 0 || test_x >= 8)
    &&& exists|j: int| 0 <= j < 64 && #[trigger] spec_sprite0_covers(oam, bus, ctrl_bits, j, test_x, test_y)
}

/// Whether cell `j` of sprite 0 paints exactly the given position.
pub open spec fn spec_sprite0_covers(
    oam: Seq<u8>,
    bus: PpuBusView,
    ctrl_bits: u8,
    j: int,
    test_x: int,
    test_y: int,
) -> bool {
    match spec_sprite_px(oam, bus, ctrl_bits, 0, j) {
        Some(p) => p.0 == test_x && p.1 == test_y,
        None => false,
    }
}

/// Executable form of `spec_sprite_zero_hit_at`.
pub fn sprite_zero_hit_at(
    mask: &MaskRegister,
    oam: &Vec<u8>,
    bus: &PPUBus,
    ctrl: &ControlRegister,
    test_x: u16,
    test_y: u16,
) -> (r: bool)
    requires
        bus@.wf(),
        oam@.len() == 256,
    ensures
        r == spec_sprite_zero_hit_at(
            mask.bits,
            oam@,
            bus@,
            ctrl.bits,
            test_x as int,
            test_y as int,
        ),
{
    if !(mask.bits & MASK_SHOW_SPRITES != 0 && (mask.bits & MASK_LEFTMOST_8PXL_SPRITE != 0
        || test_x >= 8)) {
        return false;
    }
    let mut j: usize = 0;
    while j < 64
        invariant
            bus@.wf(),
            oam@.len() == 256,
            j <= 64,
            mask.bits & MASK_SHOW_SPRITES != 0,
            mask.bits & MASK_LEFTMOST_8PXL_SPRITE != 0 || test_x >= 8,
            forall|jj: int|
                0 <= jj < j ==> !(#[trigger] spec_sprite0_covers(
                    oam@,
                    bus@,
                    ctrl.bits,
                    jj,
                    test_x as int,
                    test_y as int,
                )),
        decreases 64 - j,
    {
        let cell = sprite_px(oam, bus, ctrl, 0, j);
        match cell {
            Some(p) => {
                if p.0 == test_x && p.1 == test_y {
                    proof {
                        assert(spec_sprite0_covers(
                            oam@,
                            bus@,
                            ctrl.bits,
                            j as int,
                            test_x as int,
                            test_y as int,
                        ));
                    }
                    return true;
                }
            },
            None => {},
        }
        proof {
            assert(!spec_sprite0_covers(
                oam@,
                bus@,
                ctrl.bits,
                j as int,
                test_x as int,
                test_y as int,
            ));
        }
        j = j + 1;
    }
    false
}

/// The pixel one nametable tile cell paints through a viewport and shift,
/// or none outside the viewport.  Cell `(i, j)` is pixel
/// (`7 - j % 8`, `j / 8`) of tile `i`.
pub open spec fn spec_nt_px(
    bus: PpuBusView,
    ctrl_bits: u8,
    nt_base: int,
    vx1: int,
    vy1: int,
    vx2: int,
    vy2: int,
    shift_x: int,
    shift_y: int,
    i: int,
    j: int,
) -> PaintCell
    recommends
        bus.wf(),
        nt_base == 0 || nt_base == 0x400,
        0 <= i < 0x3c0,
        0 <= j < 64,
        vx2 <= 256,
        vy2 <= 240,
        -256 <= shift_x <= 256,
        -256 <= shift_y <= 256,
{
    let tile_col = i % 32;
    let tile_row = i / 32;
    let tile_idx = bus.vram[nt_base + i];
    let y = j / 8;
    let x = 7 - j % 8;
    let value = spec_tile_value(
        bus.chr_rom,
        spec_background_pattern_addr(ctrl_bits) as int,
        tile_idx as int,
        x,
        y,
    );
    let pal = spec_bg_palette(bus, nt_base, tile_col, tile_row);
    let rgb = if value == 0 {
        spec_system_palette(pal.0)
    } else if value == 1 {
        spec_system_palette(pal.1)
    } else if value == 2 {
        spec_system_palette(pal.2)
    } else {
        spec_system_palette(pal.3)
    };
    let pixel_x = tile_col * 8 + x;
    let pixel_y = tile_row * 8 + y;
    if vx1 <= pixel_x < vx2 && vy1 <= pixel_y < vy2 && shift_x + pixel_x >= 0 && shift_y + pixel_y
        >= 0 {
        Some(((shift_x + pixel_x) as u16, (shift_y + pixel_y) as u16, rgb))
    } else {
        None
    }
}

/// Executable form of `spec_nt_px`.
pub fn nt_px(
    bus: &PPUBus,
    ctrl: &ControlRegister,
    nt_base: usize,
    view: &Rect,
    shift_x: i32,
    shift_y: i32,
    i: usize,
    j: usize,
) -> (r: PaintCell)
    requires
        bus@.wf(),
        nt_base == 0 || nt_base == 0x400,
        i < 0x3c0,
        j < 64,
        view.x1 <= 256,
        view.y1 <= 256,
        view.x2 <= 256,
        view.y2 <= 240,
        -256 <= shift_x <= 256,
        -256 <= shift_y <= 256,
    ensures
        r == spec_nt_px(
            bus@,
            ctrl.bits,
            nt_base as int,
            view.x1 as int,
            view.y1 as int,
            view.x2 as int,
            view.y2 as int,
            shift_x as int,
            shift_y as int,
            i as int,
            j as int,
        ),
{
    let tile_col = i % 32;
    let tile_row = i / 32;
    let tile_idx = bus.vram[nt_base + i];
    let y = (j / 8) as u8;
    let x = (7 - j % 8) as u8;
    let bank = ctrl.bknd_pattern_addr();
    let value = tile_value(&bus.chr_rom, bank as usize, tile_idx, x, y);
    let pal = bg_palette(bus, nt_base, tile_col, tile_row);
    let rgb = if value == 0 {
        system_palette(pal.0)
    } else if value == 1 {
        system_palette(pal.1)
    } else if value == 2 {
        system_palette(pal.2)
    } else {
        system_palette(pal.3)
    };
    let pixel_x = (tile_col * 8 + x as usize) as i32;
    let pixel_y = (tile_row * 8 + y as usize) as i32;
    if view.x1 as i32 <= pixel_x && pixel_x < view.x2 as i32 && view.y1 as i32 <= pixel_y
        && pixel_y < view.y2 as i32 && shift_x + pixel_x >= 0 && shift_y + pixel_y >= 0 {
        Some((((shift_x + pixel_x) as u16), ((shift_y + pixel_y) as u16), rgb))
    } else {
        None
    }
}

/// The cell function of one nametable pass.
pub open spec fn spec_nt_cell(
    bus: PpuBusView,
    ctrl_bits: u8,
    nt_base: int,
    vx1: int,
    vy1: int,
    vx2: int,
    vy2: int,
    shift_x: int,
    shift_y: int,
) -> spec_fn(int, int) -> PaintCell {
    |i: int, j: int| spec_nt_px(bus, ctrl_bits, nt_base, vx1, vy1, vx2, vy2, shift_x, shift_y, i, j)
}

/// The frame after one whole nametable pass.
pub open spec fn spec_render_name_table(
    bus: PpuBusView,
    ctrl_bits: u8,
    nt_base: int,
    vx1: int,
    vy1: int,
    vx2: int,
    vy2: int,
    shift_x: int,
    shift_y: int,
    frame: Seq<u8>,
) -> Seq<u8> {
    spec_paint_grid(
        spec_nt_cell(bus, ctrl_bits, nt_base, vx1, vy1, vx2, vy2, shift_x, shift_y),
        0x3c0,
        64,
        frame,
    )
}

/// Paints the visible part of one nametable into a frame.
pub fn render_name_table(
    bus: &PPUBus,
    ctrl: &ControlRegister,
    nt_base: usize,
    view: Rect,
    shift_x: i32,
    shift_y: i32,
    frame: &mut Frame,
)
    requires
        bus@.wf(),
        nt_base == 0 || nt_base == 0x400,
        view.x1 <= 256,
        view.y1 <= 256,
        view.x2 <= 256,
        view.y2 <= 240,
        -256 <= shift_x <= 256,
        -256 <= shift_y <= 256,
    ensures
        final(frame).data@ == spec_render_name_table(
            bus@,
            ctrl.bits,
            nt_base as int,
            view.x1 as int,
            view.y1 as int,
            view.x2 as int,
            view.y2 as int,
            shift_x as int,
            shift_y as int,
            old(frame).data@,
        ),
{
    let ghost f = spec_nt_cell(
        bus@,
        ctrl.bits,
        nt_base as int,
        view.x1 as int,
        view.y1 as int,
        view.x2 as int,
        view.y2 as int,
        shift_x as int,
        shift_y as int,
    );
    let ghost frame0 = frame.data@;
    let mut i: usize = 0;
    while i < 0x3c0
        invariant
            bus@.wf(),
            nt_base == 0 || nt_base == 0x400,
            view.x1 <= 256,
            view.y1 <= 256,
            view.x2 <= 256,
            view.y2 <= 240,
            -256 <= shift_x <= 256,
            -256 <= shift_y <= 256,
            i <= 0x3c0,
            frame.data@ == spec_paint_grid(f, i as int, 64, frame0),
            f == spec_nt_cell(
                bus@,
                ctrl.bits,
                nt_base as int,
                view.x1 as int,
                view.y1 as int,
                view.x2 as int,
                view.y2 as int,
                shift_x as int,
                shift_y as int,
            ),
        decreases 0x3c0 - i,
    {
        let ghost row_base = frame.data@;
        let mut j: usize = 0;
        while j < 64
            invariant
                bus@.wf(),
                nt_base == 0 || nt_base == 0x400,
                view.x1 <= 256,
                view.y1 <= 256,
                view.x2 <= 256,
                view.y2 <= 240,
                -256 <= shift_x <= 256,
                -256 <= shift_y <= 256,
                i < 0x3c0,
                j <= 64,
                frame.data@ == spec_paint_row(f, i as int, j as int, row_base),
                f == spec_nt_cell(
                    bus@,
                    ctrl.bits,
                    nt_base as int,
                    view.x1 as int,
                    view.y1 as int,
                    view.x2 as int,
                    view.y2 as int,
                    shift_x as int,
                    shift_y as int,
                ),
            decreases 64 - j,
        {
            let cell = nt_px(bus, ctrl, nt_base, &view, shift_x, shift_y, i, j);
            match cell {
                Some(p) => {
                    frame.set_pixel(p.0 as usize, p.1 as usize, p.2);
                },
                None => {},
            }
            j = j + 1;
        }
        i = i + 1;
    }
}

/// The whole-frame background-and-sprite pass, as the host sees it.
pub open spec fn spec_render_screen(p: crate::ppu::PpuView, frame: Seq<u8>) -> Seq<u8> {
    let bases = spec_nametable_bases(p.bus.mirroring, spec_nametable_addr(p.ctrl.bits));
    let sx = p.scroll.scroll_x as int;
    let sy = p.scroll.scroll_y as int;
    let f1 = spec_render_name_table(
        p.bus,
        p.ctrl.bits,
        bases.0,
        sx,
        sy,
        256,
        240,
        -sx,
        -sy,
        frame,
    );
    let f2 = if sx > 0 {
        spec_render_name_table(p.bus, p.ctrl.bits, bases.1, 0, 0, sx, 240, 256 - sx, 0, f1)
    } else if sy > 0 {
        spec_render_name_table(
            p.bus,
            p.ctrl.bits,
            bases.1,
            0,
            0,
            256,
            if sy <= 240 {
                sy
            } else {
                240
            },
            0,
            240 - sy,
            f1,
        )
    } else {
        f1
    };
    spec_render_sprites(p.oam_data, p.bus, p.ctrl.bits, f2)
}

/// Renders the full screen from the PPU state into a provided frame:
/// the scrolled background from up to two nametables, then the sprites.
pub fn render_screen(ppu: &Ppu, frame: &mut Frame)
    requires
        ppu@.wf(),
    ensures
        final(frame).data@ == spec_render_screen(ppu@, old(frame).data@),
{
    let sx = ppu.scroll.scroll_x() as usize;
    let sy = ppu.scroll.scroll_y() as usize;
    let nta = ppu.ctrl.nametable_addr();
    let vertical_like = !matches!(ppu.bus.mirroring, Mirroring::Horizontal);
    let (main_nt, second_nt): (usize, usize) = if vertical_like {
        if nta == 0x2000 || nta == 0x2800 {
            (0, 0x400)
        } else {
            (0x400, 0)
        }
    } else {
        if nta == 0x2000 || nta == 0x2400 {
            (0, 0x400)
        } else {
            (0x400, 0)
        }
    };
    render_name_table(
        &ppu.bus,
        &ppu.ctrl,
        main_nt,
        Rect::new(sx, sy, FRAME_WIDTH, FRAME_HEIGHT),
        -(sx as i32),
        -(sy as i32),
        frame,
    );
    if sx > 0 {
        render_name_table(
            &ppu.bus,
            &ppu.ctrl,
            second_nt,
            Rect::new(0, 0, sx, FRAME_HEIGHT),
            (FRAME_WIDTH - sx) as i32,
            0,
            frame,
        );
    } else if sy > 0 {
        let vy2 = if sy <= FRAME_HEIGHT {
            sy
        } else {
            FRAME_HEIGHT
        };
        render_name_table(
            &ppu.bus,
            &ppu.ctrl,
            second_nt,
            Rect::new(0, 0, FRAME_WIDTH, vy2),
            0,
            FRAME_HEIGHT as i32 - sy as i32,
            frame,
        );
    }
    render_sprites(&ppu.oam_data, &ppu.bus, &ppu.ctrl, frame);
}

/// The pixel one CHR-bank preview cell paints: tile `t` drawn in a 20-wide
/// grid of 10x10 slots with a fixed grey-scale palette.
pub open spec fn spec_tiles_bank_px(chr: Seq<u8>, bank: int, t: int, j: int) -> PaintCell
    recommends
        bank == 0 || bank == 0x1000,
        0 <= t < 255,
        0 <= j < 64,
{
    let tile_x = (t % 20) * 10;
    let tile_y = (t / 20) * 10;
    let y = j / 8;
    let x = 7 - j % 8;
    let upper = spec_chr_read(chr, bank + t * 16 + y);
    let lower = spec_chr_read(chr, bank + t * 16 + y + 8);
    let value = (((upper >> ((7 - x) as u8)) & 1) << 1) | ((lower >> ((7 - x) as u8)) & 1);
    let rgb = if value == 0 {
        spec_system_palette(0x01)
    } else if value == 1 {
        spec_system_palette(0x23)
    } else if value == 2 {
        spec_system_palette(0x27)
    } else {
        spec_system_palette(0x30)
    };
    Some(((tile_x + x) as u16, (tile_y + y) as u16, rgb))
}

/// The CHR-bank preview frame.
pub open spec fn spec_render_tiles_bank(chr: Seq<u8>, bank: int, frame: Seq<u8>) -> Seq<u8> {
    spec_paint_grid(|t: int, j: int| spec_tiles_bank_px(chr, bank, t, j), 255, 64, frame)
}

/// Renders the 255 tiles of one CHR bank (0 or 1) into a fresh frame, as a
/// debugging preview with a fixed grey-and-orange palette.  The preview
/// reads the low plane into bit 1, so plain tiles stand out from the
/// backdrop.
pub fn render_tiles_bank(cartridge: &Cartridge, bank: usize) -> (frame: Frame)
    requires
        bank <= 1,
    ensures
        frame.data@ == spec_render_tiles_bank(
            cartridge.chr_rom@,
            (bank * 0x1000) as int,
            Seq::new((FRAME_WIDTH * FRAME_HEIGHT * 3) as nat, |i: int| 0u8),
        ),
{
    let mut frame = Frame::new();
    let bank_base = bank * 0x1000;
    let ghost f = |t: int, j: int| spec_tiles_bank_px(cartridge.chr_rom@, bank_base as int, t, j);
    let ghost frame0 = frame.data@;
    let mut t: usize = 0;
    while t < 255
        invariant
            bank_base == 0 || bank_base == 0x1000,
            t <= 255,
            frame.data@ == spec_paint_grid(f, t as int, 64, frame0),
            f == (|tt: int, j: int| spec_tiles_bank_px(cartridge.chr_rom@, bank_base as int, tt, j)),
        decreases 255 - t,
    {
        let ghost row_base = frame.data@;
        let tile_x = (t % 20) * 10;
        let tile_y = (t / 20) * 10;
        let mut j: usize = 0;
        while j < 64
            invariant
                bank_base == 0 || bank_base == 0x1000,
                t < 255,
                j <= 64,
                tile_x == (t % 20) * 10,
                tile_y == (t / 20) * 10,
                frame.data@ == spec_paint_row(f, t as int, j as int, row_base),
                f == (
                |tt: int, jj: int| spec_tiles_bank_px(cartridge.chr_rom@, bank_base as int, tt, jj)
                ),
            decreases 64 - j,
        {
            let y = j / 8;
            let x = 7 - j % 8;
            let upper = chr_read(&cartridge.chr_rom, bank_base + t * 16 + y);
            let lower = chr_read(&cartridge.chr_rom, bank_base + t * 16 + y + 8);
            let value = (((upper >> ((7 - x) as u8)) & 1) << 1) | ((lower >> ((7 - x) as u8)) & 1);
            let rgb = if value == 0 {
                system_palette(0x01)
            } else if value == 1 {
                system_palette(0x23)
            } else if value == 2 {
                system_palette(0x27)
            } else {
                system_palette(0x30)
            };
            frame.set_pixel(tile_x + x, tile_y + y, rgb);
            j = j + 1;
        }
        t = t + 1;
    }
    frame
}

/// The framebuffer after an optional single write.
pub open spec fn spec_apply_cell(frame: Seq<u8>, cell: PaintCell) -> Seq<u8> {
    match cell {
        Some(p) => spec_set_pixel(frame, p.0 as int, p.1 as int, p.2),
        None => frame,
    }
}

/// One quadrant's contribution at the current dot: the pixel it paints (if
/// the dot falls in its viewport and the background is visible) and the
/// sprite-0-hit outcome, which keeps an already-set hit and otherwise tests
/// the painted position against sprite 0.
pub open spec fn spec_quadrant_dot(
    ctrl_bits: u8,
    mask_bits: u8,
    status_bits: u8,
    oam: Seq<u8>,
    bus: PpuBusView,
    cycle: int,
    scanline: int,
    nt_base: int,
    vx1: int,
    vy1: int,
    vx2: int,
    vy2: int,
    shift_x: int,
    shift_y: int,
) -> (PaintCell, bool)
    recommends
        bus.wf(),
        oam.len() == 256,
        nt_base == 0 || nt_base == 0x400,
        vx2 <= 256,
        vy2 <= 240,
{
    if !spec_bg_visible(mask_bits, cycle) {
        (None, false)
    } else if cycle < vx1 || cycle >= vx2 || scanline < vy1 || scanline >= vy2 {
        (None, false)
    } else {
        let tile_col = cycle / 8;
        let tile_row = scanline / 8;
        let tile_idx = bus.vram[nt_base + tile_row * 32 + tile_col];
        let x = 7 - cycle % 8;
        let y = scanline % 8;
        let value = spec_tile_value(
            bus.chr_rom,
            spec_background_pattern_addr(ctrl_bits) as int,
            tile_idx as int,
            x,
            y,
        );
        let pal = spec_bg_palette(bus, nt_base, tile_col, tile_row);
        let rgb = if value == 0 {
            spec_system_palette(pal.0)
        } else if value == 1 {
            spec_system_palette(pal.1)
        } else if value == 2 {
            spec_system_palette(pal.2)
        } else {
            spec_system_palette(pal.3)
        };
        let px = shift_x + cycle;
        let py = shift_y + scanline;
        let hit0 = status_bits & STATUS_SPRITE_ZERO_HIT != 0;
        let new_hit = !hit0 && value != 0 && px >= 0 && py >= 0 && spec_sprite_zero_hit_at(
            mask_bits,
            oam,
            bus,
            ctrl_bits,
            px,
            py,
        );
        let paint: PaintCell = if px >= 0 && py >= 0 {
            Some((px as u16, py as u16, rgb))
        } else {
            None
        };
        (paint, hit0 || new_hit)
    }
}

/// Executable form of `spec_quadrant_dot`.
pub fn quadrant_dot(
    ctrl: &ControlRegister,
    mask: &MaskRegister,
    status: &StatusRegister,
    oam: &Vec<u8>,
    bus: &PPUBus,
    cycle: u16,
    scanline: u16,
    nt_base: u16,
    vx1: u16,
    vy1: u16,
    vx2: u16,
    vy2: u16,
    shift_x: i32,
    shift_y: i32,
) -> (r: (PaintCell, bool))
    requires
        bus@.wf(),
        oam@.len() == 256,
        nt_base == 0 || nt_base == 0x400,
        vx2 <= 256,
        vy2 <= 240,
        cycle < 341,
        scanline < 262,
        -512 <= shift_x <= 512,
        -512 <= shift_y <= 512,
    ensures
        r.0 == spec_quadrant_dot(
            ctrl.bits,
            mask.bits,
            status.bits,
            oam@,
            bus@,
            cycle as int,
            scanline as int,
            nt_base as int,
            vx1 as int,
            vy1 as int,
            vx2 as int,
            vy2 as int,
            shift_x as int,
            shift_y as int,
        ).0,
        r.1 == spec_quadrant_dot(
            ctrl.bits,
            mask.bits,
            status.bits,
            oam@,
            bus@,
            cycle as int,
            scanline as int,
            nt_base as int,
            vx1 as int,
            vy1 as int,
            vx2 as int,
            vy2 as int,
            shift_x as int,
            shift_y as int,
        ).1,
{
    proof {
        reveal(spec_quadrant_dot);
    }
    if !(mask.bits & MASK_SHOW_BACKGROUND != 0 && (mask.bits & MASK_LEFTMOST_8PXL_BACKGROUND != 0
        || cycle >= 8)) {
        return (None, false);
    }
    if cycle < vx1 || cycle >= vx2 || scanline < vy1 || scanline >= vy2 {
        return (None, false);
    }
    let tile_col = (cycle / 8) as usize;
    let tile_row = (scanline / 8) as usize;
    let tile_idx = bus.vram[nt_base as usize + tile_row * 32 + tile_col];
    let x = (7 - cycle % 8) as u8;
    let y = (scanline % 8) as u8;
    let bank = ctrl.bknd_pattern_addr();
    let value = tile_value(&bus.chr_rom, bank as usize, tile_idx, x, y);
    let pal = bg_palette(bus, nt_base as usize, tile_col, tile_row);
    let rgb = if value == 0 {
        system_palette(pal.0)
    } else if value == 1 {
        system_palette(pal.1)
    } else if value == 2 {
        system_palette(pal.2)
    } else {
        system_palette(pal.3)
    };
    let px: i32 = shift_x + cycle as i32;
    let py: i32 = shift_y + scanline as i32;
    let hit0 = status.bits & STATUS_SPRITE_ZERO_HIT != 0;
    let mut new_hit = false;
    if !hit0 && value != 0 && px >= 0 && py >= 0 {
        new_hit = sprite_zero_hit_at(mask, oam, bus, ctrl, px as u16, py as u16);
    }
    let paint: PaintCell = if px >= 0 && py >= 0 {
        Some((px as u16, py as u16, rgb))
    } else {
        None
    };
    (paint, hit0 || new_hit)
}

} // verus!
