//! The picture processing unit: its CPU-visible register interface, the
//! object attribute memory, and the scanline/cycle state machine with NMI
//! generation.

use vstd::prelude::*;
use crate::frame::Frame;
use crate::ppu_bus::{PPUBus, PpuBusView, spec_ppu_bus_read, spec_ppu_bus_write};
use crate::registers::{
    AddrRegister, ControlRegister, MaskRegister, ScrollRegister, StatusRegister,
    spec_addr_get, spec_addr_increment, spec_addr_update, spec_generate_vblank_nmi,
    spec_vram_addr_increment, lemma_addr_update_bounded, lemma_addr_increment_bounded,
    STATUS_VBLANK_STARTED,
};
use crate::cartridge::Cartridge;

verus! {

/// PPU error taxonomy; reserved for conditions the register interface cannot
/// express.
#[derive(Debug, PartialEq, Eq, Clone, Copy, Structural)]
pub enum PpuError {
    Unknown,
}

/// PPU.
pub struct Ppu {
    pub addr: AddrRegister,
    pub ctrl: ControlRegister,
    pub mask: MaskRegister,
    pub status: StatusRegister,
    pub scroll: ScrollRegister,
    pub oam_addr: u8,
    pub oam_data: Vec<u8>,
    pub scanline: u16,
    pub cycle: usize,
    pub nmi_interrupt: bool,
    pub bus: PPUBus,
    pub frame: Frame,
}

/// Mathematical model of the PPU.
#[verifier::ext_equal]
pub ghost struct PpuView {
    pub addr: AddrRegister,
    pub ctrl: ControlRegister,
    pub mask: MaskRegister,
    pub status: StatusRegister,
    pub scroll: ScrollRegister,
    pub oam_addr: u8,
    pub oam_data: Seq<u8>,
    pub scanline: u16,
    pub cycle: int,
    pub nmi_interrupt: bool,
    pub bus: PpuBusView,
    pub frame: Seq<u8>,
}

impl View for Ppu {
    type V = PpuView;

    open spec fn view(&self) -> PpuView {
        PpuView {
            addr: self.addr,
            ctrl: self.ctrl,
            mask: self.mask,
            status: self.status,
            scroll: self.scroll,
            oam_addr: self.oam_addr,
            oam_data: self.oam_data@,
            scanline: self.scanline,
            cycle: self.cycle as int,
            nmi_interrupt: self.nmi_interrupt,
            bus: self.bus@,
            frame: self.frame.data@,
        }
    }
}

impl PpuView {
    /// The sizes and ranges every reachable PPU state keeps: full OAM and
    /// framebuffer, a 14-bit address register, and a dot position inside the
    /// 341 x 262 grid.
    pub open spec fn wf(self) -> bool {
        &&& self.oam_data.len() == 256
        &&& self.bus.wf()
        &&& self.frame.len() == 256 * 240 * 3
        &&& spec_addr_get(self.addr) <= 0x3fff
        &&& self.cycle < 341
        &&& self.scanline < 262
    }
}

/// A `$2002` read: hands back the status bits, then clears vblank and resets
/// the shared write latch of SCROLL and ADDR.
pub open spec fn spec_ppu_read_status(p: PpuView) -> (PpuView, u8) {
    (
        PpuView {
            status: StatusRegister { bits: p.status.bits & !STATUS_VBLANK_STARTED },
            addr: AddrRegister { hi_ptr: true, ..p.addr },
            scroll: ScrollRegister { latch: false, ..p.scroll },
            ..p
        },
        p.status.bits,
    )
}

/// A `$2000` write: NMI fires at once when the enable bit rises while the
/// status register is already in vblank.
pub open spec fn spec_ppu_write_ctrl(p: PpuView, value: u8) -> PpuView {
    let rising = !spec_generate_vblank_nmi(p.ctrl.bits) && spec_generate_vblank_nmi(value);
    PpuView {
        ctrl: ControlRegister { bits: value },
        nmi_interrupt: p.nmi_interrupt || (rising && p.status.bits & STATUS_VBLANK_STARTED != 0),
        ..p
    }
}

/// A `$2004` write: stores at OAMADDR, which wraps modulo 256.
pub open spec fn spec_ppu_write_oam_data(p: PpuView, value: u8) -> PpuView {
    PpuView {
        oam_data: p.oam_data.update(p.oam_addr as int, value),
        oam_addr: ((p.oam_addr + 1) % 256) as u8,
        ..p
    }
}

/// Which DMA source byte lands at OAM position `k` when the burst starts at
/// `start`: the page is rotated so byte 0 lands at `start`.
pub open spec fn spec_dma_src(start: u8, k: int) -> int {
    if k >= start {
        k - start
    } else {
        k + 256 - start
    }
}

/// A `$2007` read: returns through the bus's read buffer and increments the
/// address register by the CTRL step.
pub open spec fn spec_ppu_read_data(p: PpuView) -> (PpuView, u8) {
    let addr = spec_addr_get(p.addr);
    let stepped = spec_addr_increment(p.addr, spec_vram_addr_increment(p.ctrl.bits));
    let (bus, value) = spec_ppu_bus_read(p.bus, addr);
    (PpuView { addr: stepped, bus: bus, ..p }, value)
}

/// A `$2007` write: stores through the bus, then increments the address.
pub open spec fn spec_ppu_write_data(p: PpuView, value: u8) -> PpuView {
    let addr = spec_addr_get(p.addr);
    let stepped = spec_addr_increment(p.addr, spec_vram_addr_increment(p.ctrl.bits));
    PpuView { addr: stepped, bus: spec_ppu_bus_write(p.bus, addr, value), ..p }
}

impl Ppu {
    /// A PPU in its power-on state, with a fresh bus and a black frame.
    pub fn new() -> (p: Ppu)
        ensures
            p@.wf(),
            p@.addr == (AddrRegister { value_hi: 0, value_lo: 0, hi_ptr: true }),
            p@.ctrl.bits == 0,
            p@.mask.bits == 0,
            p@.status.bits == 0,
            p@.scroll == (ScrollRegister { scroll_x: 0, scroll_y: 0, latch: false }),
            p@.oam_addr == 0,
            p@.oam_data == Seq::new(256, |i: int| 0u8),
            p@.scanline == 0,
            p@.cycle == 0,
            !p@.nmi_interrupt,
            p@.bus == (PpuBusView {
                chr_rom: Seq::<u8>::empty(),
                palette_table: Seq::new(32, |i: int| 0u8),
                vram: Seq::new(2048, |i: int| 0u8),
                mirroring: crate::cartridge::Mirroring::Vertical,
                internal_data_buf: 0,
                cartridge_connected: false,
            }),
            p@.frame == Seq::new((256 * 240 * 3) as nat, |i: int| 0u8),
    {
        let p = Ppu {
            addr: AddrRegister::new(),
            ctrl: ControlRegister::new(),
            mask: MaskRegister::new(),
            status: StatusRegister::new(),
            scroll: ScrollRegister::new(),
            oam_addr: 0,
            oam_data: crate::ppu_bus::zero_vec(256),
            scanline: 0,
            cycle: 0,
            nmi_interrupt: false,
            bus: PPUBus::new(),
            frame: Frame::new(),
        };
        proof {
            crate::registers::lemma_addr_get_linear(p@.addr);
        }
        p
    }

    pub fn frame(&self) -> (r: &Frame)
        ensures
            r == &self.frame,
    {
        &self.frame
    }

    pub fn nmi_interrupt(&self) -> (r: bool)
        ensures
            r == self.nmi_interrupt,
    {
        self.nmi_interrupt
    }

    pub fn ctrl(&self) -> (r: &ControlRegister)
        ensures
            r == &self.ctrl,
    {
        &self.ctrl
    }

    pub fn bus(&self) -> (r: &PPUBus)
        ensures
            r == &self.bus,
    {
        &self.bus
    }

    pub fn oam_data(&self) -> (r: &Vec<u8>)
        ensures
            r == &self.oam_data,
    {
        &self.oam_data
    }

    pub fn scroll(&self) -> (r: &ScrollRegister)
        ensures
            r == &self.scroll,
    {
        &self.scroll
    }

    pub fn status(&self) -> (r: &StatusRegister)
        ensures
            r == &self.status,
    {
        &self.status
    }

    pub fn cycles(&self) -> (r: usize)
        ensures
            r == self.cycle,
    {
        self.cycle
    }

    pub fn scanline(&self) -> (r: u16)
        ensures
            r == self.scanline,
    {
        self.scanline
    }

    /// Hands the PPU its address bus.
    pub fn connect_bus(&mut self, bus: PPUBus)
        ensures
            final(self)@ == (PpuView { bus: bus@, ..old(self)@ }),
    {
        self.bus = bus;
        proof {
            assert(self@ =~= PpuView { bus: bus@, ..old(self)@ });
        }
    }

    /// Takes CHR and mirroring from a cartridge, through the bus.
    pub fn connect_cartridge(&mut self, cartridge: &Cartridge)
        ensures
            final(self)@ == (PpuView {
                bus: PpuBusView {
                    chr_rom: cartridge.chr_rom@,
                    mirroring: cartridge.screen_mirroring,
                    cartridge_connected: true,
                    ..old(self)@.bus
                },
                ..old(self)@
            }),
    {
        self.bus.connect_cartridge(cartridge);
        proof {
            assert(self@ =~= PpuView {
                bus: PpuBusView {
                    chr_rom: cartridge.chr_rom@,
                    mirroring: cartridge.screen_mirroring,
                    cartridge_connected: true,
                    ..old(self)@.bus
                },
                ..old(self)@
            });
        }
    }

    /// Reads `$2002`.
    pub fn read_status(&mut self) -> (r: u8)
        ensures
            final(self)@ == spec_ppu_read_status(old(self)@).0,
            r == spec_ppu_read_status(old(self)@).1,
    {
        let data = self.status.snapshot();
        self.status.reset_vblank_status();
        self.addr.reset_latch();
        self.scroll.reset_latch();
        proof {
            assert(self@ =~= spec_ppu_read_status(old(self)@).0);
        }
        data
    }

    /// Writes `$2003`.
    pub fn write_to_oam_addr(&mut self, value: u8)
        ensures
            final(self)@ == (PpuView { oam_addr: value, ..old(self)@ }),
    {
        self.oam_addr = value;
        proof {
            assert(self@ =~= PpuView { oam_addr: value, ..old(self)@ });
        }
    }

    /// Writes `$2004`.
    pub fn write_to_oam_data(&mut self, value: u8)
        requires
            old(self)@.wf(),
        ensures
            final(self)@ == spec_ppu_write_oam_data(old(self)@, value),
            final(self)@.wf(),
    {
        self.oam_data[self.oam_addr as usize] = value;
        self.oam_addr = self.oam_addr.wrapping_add(1);
        proof {
            assert(self@ =~= spec_ppu_write_oam_data(old(self)@, value));
        }
    }

    /// Reads `$2004`.
    pub fn read_oam_data(&self) -> (r: u8)
        requires
            self@.wf(),
        ensures
            r == self@.oam_data[self@.oam_addr as int],
    {
        self.oam_data[self.oam_addr as usize]
    }

    /// A `$4014` DMA burst: all 256 bytes land in OAM starting at OAMADDR,
    /// which wraps modulo 256 on each byte and so ends where it began.
    pub fn write_oam_dma(&mut self, data: &Vec<u8>)
        requires
            old(self)@.wf(),
            data.len() == 256,
        ensures
            final(self)@.wf(),
            final(self)@ == (PpuView {
                oam_data: Seq::new(256, |k: int| data@[spec_dma_src(old(self)@.oam_addr, k)]),
                ..old(self)@
            }),
    {
        let ghost start = self.oam_addr;
        let mut i: usize = 0;
        while i < 256
            invariant
                self@.wf(),
                data.len() == 256,
                i <= 256,
                self@ == (PpuView {
                    oam_data: self@.oam_data,
                    oam_addr: self@.oam_addr,
                    ..old(self)@
                }),
                self@.oam_addr == if start + i < 256 {
                    start + i
                } else {
                    start + i - 256
                },
                forall|k: int|
                    0 <= k < 256 ==> self@.oam_data[k] == if spec_dma_src(start, k) < i {
                        data@[spec_dma_src(start, k)]
                    } else {
                        old(self)@.oam_data[k]
                    },
            decreases 256 - i,
        {
            let ghost prev = self@;
            self.oam_data[self.oam_addr as usize] = data[i];
            self.oam_addr = self.oam_addr.wrapping_add(1);
            proof {
                assert(self@ =~= PpuView {
                    oam_data: self@.oam_data,
                    oam_addr: self@.oam_addr,
                    ..old(self)@
                });
                let at = if start + i < 256 {
                    start + i as int
                } else {
                    start + i - 256
                };
                assert(spec_dma_src(start, at) == i);
                assert(forall|k: int|
                    0 <= k < 256 && k != at ==> self@.oam_data[k] == prev.oam_data[k]);
            }
            i = i + 1;
        }
        proof {
            assert(self@.oam_addr == start);
            assert(self@.oam_data =~= Seq::new(
                256,
                |k: int| data@[spec_dma_src(old(self)@.oam_addr, k)],
            ));
            assert(self@ =~= PpuView {
                oam_data: Seq::new(256, |k: int| data@[spec_dma_src(old(self)@.oam_addr, k)]),
                ..old(self)@
            });
        }
    }

    /// Writes `$2006`.
    pub fn write_to_ppu_addr(&mut self, value: u8)
        ensures
            final(self)@ == (PpuView { addr: spec_addr_update(old(self)@.addr, value), ..old(self)@ }),
            spec_addr_get(final(self)@.addr) <= 0x3fff,
    {
        self.addr.update(value);
        proof {
            lemma_addr_update_bounded(old(self)@.addr, value);
            assert(self@ =~= PpuView { addr: spec_addr_update(old(self)@.addr, value), ..old(self)@ });
        }
    }

    /// Writes `$2000`.
    pub fn write_to_ctrl(&mut self, value: u8)
        ensures
            final(self)@ == spec_ppu_write_ctrl(old(self)@, value),
    {
        let before_nmi_status = self.ctrl.generate_vblank_nmi();
        self.ctrl.update(value);
        if !before_nmi_status && self.ctrl.generate_vblank_nmi() && self.status.is_in_vblank() {
            self.nmi_interrupt = true;
        }
        proof {
            assert(self@ =~= spec_ppu_write_ctrl(old(self)@, value));
        }
    }

    /// Writes `$2001`.
    pub fn write_to_mask(&mut self, value: u8)
        ensures
            final(self)@ == (PpuView { mask: MaskRegister { bits: value }, ..old(self)@ }),
    {
        self.mask.update(value);
        proof {
            assert(self@ =~= PpuView { mask: MaskRegister { bits: value }, ..old(self)@ });
        }
    }

    /// Writes `$2005`.
    pub fn write_to_scroll(&mut self, value: u8)
        ensures
            final(self)@ == (PpuView {
                scroll: ScrollRegister {
                    scroll_x: if old(self)@.scroll.latch {
                        old(self)@.scroll.scroll_x
                    } else {
                        value
                    },
                    scroll_y: if old(self)@.scroll.latch {
                        value
                    } else {
                        old(self)@.scroll.scroll_y
                    },
                    latch: !old(self)@.scroll.latch,
                },
                ..old(self)@
            }),
    {
        self.scroll.write(value);
        proof {
            assert(self@ =~= PpuView {
                scroll: ScrollRegister {
                    scroll_x: if old(self)@.scroll.latch {
                        old(self)@.scroll.scroll_x
                    } else {
                        value
                    },
                    scroll_y: if old(self)@.scroll.latch {
                        value
                    } else {
                        old(self)@.scroll.scroll_y
                    },
                    latch: !old(self)@.scroll.latch,
                },
                ..old(self)@
            });
        }
    }

    /// The `$2007` side step: advance ADDR by the CTRL increment.
    fn increment_vram_addr(&mut self)
        ensures
            final(self)@ == (PpuView {
                addr: spec_addr_increment(old(self)@.addr, spec_vram_addr_increment(old(self)@.ctrl.bits)),
                ..old(self)@
            }),
            spec_addr_get(final(self)@.addr) <= 0x3fff,
    {
        let step = self.ctrl.vram_addr_increment();
        proof {
            lemma_addr_increment_bounded(self@.addr, step);
        }
        self.addr.increment(step);
        proof {
            assert(self@ =~= PpuView {
                addr: spec_addr_increment(old(self)@.addr, spec_vram_addr_increment(old(self)@.ctrl.bits)),
                ..old(self)@
            });
        }
    }

    /// Reads `$2007`.
    pub fn read_data(&mut self) -> (r: u8)
        requires
            old(self)@.wf(),
        ensures
            final(self)@ == spec_ppu_read_data(old(self)@).0,
            r == spec_ppu_read_data(old(self)@).1,
            final(self)@.wf(),
    {
        let addr = self.addr.get();
        self.increment_vram_addr();
        let r = self.bus.read_data(addr);
        proof {
            assert(self@ =~= spec_ppu_read_data(old(self)@).0);
        }
        r
    }

    /// Writes `$2007`.
    pub fn write_to_data(&mut self, value: u8)
        requires
            old(self)@.wf(),
        ensures
            final(self)@ == spec_ppu_write_data(old(self)@, value),
            final(self)@.wf(),
    {
        let addr = self.addr.get();
        self.bus.write_to_data(addr, value);
        self.increment_vram_addr();
        proof {
            assert(self@ =~= spec_ppu_write_data(old(self)@, value));
        }
    }

    /// Polls and consumes the pending-NMI flag.
    pub fn poll_nmi_status(&mut self) -> (r: bool)
        ensures
            r == old(self)@.nmi_interrupt,
            final(self)@ == (PpuView { nmi_interrupt: false, ..old(self)@ }),
    {
        let status = self.nmi_interrupt;
        self.nmi_interrupt = false;
        proof {
            assert(self@ =~= PpuView { nmi_interrupt: false, ..old(self)@ });
        }
        status
    }
}

/// The frame and hit outcome of the per-dot background pass: four quadrant
/// attempts in order, stopping at the first that reports a hit (so an
/// already-latched hit repaints only the first quadrant, as the hit flag
/// stays set until the end of the frame).
pub open spec fn spec_render_dot(p: PpuView) -> (Seq<u8>, bool) {
    let bases = crate::render::spec_nametable_bases(
        p.bus.mirroring,
        crate::registers::spec_nametable_addr(p.ctrl.bits),
    );
    let horizontal = p.bus.mirroring == crate::cartridge::Mirroring::Horizontal;
    let bl_nt = if horizontal {
        bases.1
    } else {
        bases.0
    };
    let tr_nt = if horizontal {
        bases.0
    } else {
        bases.1
    };
    let sx = p.scroll.scroll_x as int;
    let sy = p.scroll.scroll_y as int;
    let q1 = spec_quadrant_of(p, bases.0, sx, sy, 256, 240, -sx, -sy);
    let f1 = crate::render::spec_apply_cell(p.frame, q1.0);
    if q1.1 {
        (f1, true)
    } else {
        let q2 = spec_quadrant_of(p, bl_nt, sx, 0, 256, 240, -sx, 240 - sy);
        let f2 = crate::render::spec_apply_cell(f1, q2.0);
        if q2.1 {
            (f2, true)
        } else {
            let q3 = spec_quadrant_of(p, tr_nt, 0, sy, sx, 240, 256 - sx, -sy);
            let f3 = crate::render::spec_apply_cell(f2, q3.0);
            if q3.1 {
                (f3, true)
            } else {
                let q4 = spec_quadrant_of(p, bases.1, 0, 0, 256, 240, 256 - sx, 240 - sy);
                let f4 = crate::render::spec_apply_cell(f3, q4.0);
                (f4, q4.1)
            }
        }
    }
}

/// One quadrant attempt over the PPU's own registers.
pub open spec fn spec_quadrant_of(
    p: PpuView,
    nt_base: int,
    vx1: int,
    vy1: int,
    vx2: int,
    vy2: int,
    shift_x: int,
    shift_y: int,
) -> (crate::render::PaintCell, bool) {
    crate::render::spec_quadrant_dot(
        p.ctrl.bits,
        p.mask.bits,
        p.status.bits,
        p.oam_data,
        p.bus,
        p.cycle,
        p.scanline as int,
        nt_base,
        vx1,
        vy1,
        vx2,
        vy2,
        shift_x,
        shift_y,
    )
}

/// One PPU dot.  The background pass runs first and may latch sprite-0 hit;
/// then the dot counter advances, wrapping into the next scanline.  Entering
/// scanline 241 draws the sprite pass, sets vblank and raises NMI when
/// enabled; passing the last scanline resets the frame state.  The result is
/// true exactly when a scanline was completed.
pub open spec fn spec_ppu_tick(p: PpuView) -> (PpuView, bool) {
    let dot = spec_render_dot(p);
    let p1 = PpuView {
        frame: dot.0,
        status: if dot.1 {
            StatusRegister { bits: p.status.bits | crate::registers::STATUS_SPRITE_ZERO_HIT }
        } else {
            p.status
        },
        ..p
    };
    if p1.cycle + 1 >= 341 {
        let sl = p1.scanline + 1;
        let p2 = PpuView { cycle: p1.cycle + 1 - 341, scanline: sl as u16, ..p1 };
        let p3 = if sl == 241 {
            PpuView {
                frame: crate::render::spec_render_sprites(
                    p2.oam_data,
                    p2.bus,
                    p2.ctrl.bits,
                    p2.frame,
                ),
                status: StatusRegister { bits: p2.status.bits | STATUS_VBLANK_STARTED },
                nmi_interrupt: p2.nmi_interrupt || spec_generate_vblank_nmi(p2.ctrl.bits),
                ..p2
            }
        } else {
            p2
        };
        let p4 = if sl >= 262 {
            PpuView {
                scanline: 0,
                nmi_interrupt: false,
                status: StatusRegister {
                    bits: p3.status.bits & !(STATUS_VBLANK_STARTED
                        | crate::registers::STATUS_SPRITE_ZERO_HIT
                        | crate::registers::STATUS_SPRITE_OVERFLOW),
                },
                ctrl: ControlRegister {
                    bits: p3.ctrl.bits & !(crate::registers::CTRL_NAMETABLE1
                        | crate::registers::CTRL_NAMETABLE2),
                },
                ..p3
            }
        } else {
            p3
        };
        (p4, true)
    } else {
        (PpuView { cycle: p1.cycle + 1, ..p1 }, false)
    }
}

/// Clearing the three status bits one at a time clears them all at once.
pub proof fn lemma_status_frame_clear(x: u8)
    ensures
        ((x & !STATUS_VBLANK_STARTED) & !crate::registers::STATUS_SPRITE_ZERO_HIT)
            & !crate::registers::STATUS_SPRITE_OVERFLOW == x & !(STATUS_VBLANK_STARTED
            | crate::registers::STATUS_SPRITE_ZERO_HIT | crate::registers::STATUS_SPRITE_OVERFLOW),
{
    assert(((x & !0x80u8) & !0x40u8) & !0x20u8 == x & !(0x80u8 | 0x40u8 | 0x20u8)) by (bit_vector);
}

impl Ppu {
    /// The per-dot background pass; returns whether sprite-0 hit should
    /// latch.
    #[verifier::rlimit(100)]
    fn render_dot(&mut self) -> (r: bool)
        requires
            old(self)@.wf(),
        ensures
            final(self)@ == (PpuView { frame: spec_render_dot(old(self)@).0, ..old(self)@ }),
            r == spec_render_dot(old(self)@).1,
            final(self)@.wf(),
    {
        let sx = self.scroll.scroll_x() as u16;
        let sy = self.scroll.scroll_y() as u16;
        let nta = self.ctrl.nametable_addr();
        let horizontal = matches!(self.bus.mirroring, crate::cartridge::Mirroring::Horizontal);
        let (main_nt, second_nt): (u16, u16) = if horizontal {
            if nta == 0x2000 || nta == 0x2400 {
                (0, 0x400)
            } else {
                (0x400, 0)
            }
        } else {
            if nta == 0x2000 || nta == 0x2800 {
                (0, 0x400)
            } else {
                (0x400, 0)
            }
        };
        let bl_nt = if horizontal {
            second_nt
        } else {
            main_nt
        };
        let tr_nt = if horizontal {
            main_nt
        } else {
            second_nt
        };
        let cycle = self.cycle as u16;
        let scanline = self.scanline;
        let q1 = crate::render::quadrant_dot(
            &self.ctrl,
            &self.mask,
            &self.status,
            &self.oam_data,
            &self.bus,
            cycle,
            scanline,
            main_nt,
            sx,
            sy,
            256,
            240,
            -(sx as i32),
            -(sy as i32),
        );
        match q1.0 {
            Some(p) => {
                self.frame.set_pixel(p.0 as usize, p.1 as usize, p.2);
            },
            None => {},
        }
        if q1.1 {
            proof {
                assert(self@ =~= PpuView { frame: spec_render_dot(old(self)@).0, ..old(self)@ });
            }
            return true;
        }
        let q2 = crate::render::quadrant_dot(
            &self.ctrl,
            &self.mask,
            &self.status,
            &self.oam_data,
            &self.bus,
            cycle,
            scanline,
            bl_nt,
            sx,
            0,
            256,
            240,
            -(sx as i32),
            240 - sy as i32,
        );
        match q2.0 {
            Some(p) => {
                self.frame.set_pixel(p.0 as usize, p.1 as usize, p.2);
            },
            None => {},
        }
        if q2.1 {
            proof {
                assert(self@ =~= PpuView { frame: spec_render_dot(old(self)@).0, ..old(self)@ });
            }
            return true;
        }
        let q3 = crate::render::quadrant_dot(
            &self.ctrl,
            &self.mask,
            &self.status,
            &self.oam_data,
            &self.bus,
            cycle,
            scanline,
            tr_nt,
            0,
            sy,
            sx,
            240,
            256 - sx as i32,
            -(sy as i32),
        );
        match q3.0 {
            Some(p) => {
                self.frame.set_pixel(p.0 as usize, p.1 as usize, p.2);
            },
            None => {},
        }
        if q3.1 {
            proof {
                assert(self@ =~= PpuView { frame: spec_render_dot(old(self)@).0, ..old(self)@ });
            }
            return true;
        }
        let q4 = crate::render::quadrant_dot(
            &self.ctrl,
            &self.mask,
            &self.status,
            &self.oam_data,
            &self.bus,
            cycle,
            scanline,
            second_nt,
            0,
            0,
            256,
            240,
            256 - sx as i32,
            240 - sy as i32,
        );
        match q4.0 {
            Some(p) => {
                self.frame.set_pixel(p.0 as usize, p.1 as usize, p.2);
            },
            None => {},
        }
        proof {
            assert(self@ =~= PpuView { frame: spec_render_dot(old(self)@).0, ..old(self)@ });
        }
        q4.1
    }

    /// Advances one dot.  `Ok(true)` reports the end of a scanline; the
    /// error variant is never produced.
    pub fn tick(&mut self) -> (r: Result<bool, PpuError>)
        requires
            old(self)@.wf(),
        ensures
            final(self)@ == spec_ppu_tick(old(self)@).0,
            r == Ok::<bool, PpuError>(spec_ppu_tick(old(self)@).1),
            final(self)@.wf(),
    {
        let hit = self.render_dot();
        if hit {
            self.status.set_sprite_zero_hit(true);
        }
        proof {
            crate::render::lemma_paint_grid_len(
                crate::render::spec_sprites_cell(self@.oam_data, self@.bus, self@.ctrl.bits),
                64,
                64,
                self@.frame,
            );
        }
        self.cycle = self.cycle + 1;
        if self.cycle >= 341 {
            self.cycle = self.cycle - 341;
            self.scanline = self.scanline + 1;
            if self.scanline == 241 {
                crate::render::render_sprites(
                    &self.oam_data,
                    &self.bus,
                    &self.ctrl,
                    &mut self.frame,
                );
                self.status.set_vblank_status(true);
                if self.ctrl.generate_vblank_nmi() {
                    self.nmi_interrupt = true;
                }
            }
            if self.scanline >= 262 {
                self.scanline = 0;
                self.nmi_interrupt = false;
                proof {
                    lemma_status_frame_clear(self@.status.bits);
                }
                self.status.reset_vblank_status();
                self.status.set_sprite_zero_hit(false);
                self.status.set_sprite_overflow(false);
                self.ctrl.set(
                    crate::registers::CTRL_NAMETABLE1 | crate::registers::CTRL_NAMETABLE2,
                    false,
                );
            }
            proof {
                assert(self@ =~= spec_ppu_tick(old(self)@).0);
            }
            return Ok(true);
        }
        proof {
            assert(self@ =~= spec_ppu_tick(old(self)@).0);
        }
        Ok(false)
    }
}

} // verus!
