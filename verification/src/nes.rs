//! The console: the CPU wired to its bus, the PPU and the joypads, advanced
//! at the 1:3 CPU-to-PPU cycle ratio.
//!
//! The console performs no pacing and takes no callbacks: a host drives it
//! through `step`, which reports the BRK stop condition and the once-per-
//! frame NMI edge on which a finished frame is consumed.

use vstd::prelude::*;
use crate::cartridge::Cartridge;
use crate::controller::{Joypad, JoypadButton, spec_button_mask};
use crate::cpu::{CPU, CPUError, CpuMem, CpuMemView, CpuView};
use crate::cpu_bus::{CpuBus, CpuBusView};
use crate::execution::{spec_cpu_tick, spec_cpu_reset, RUN_FUEL};
use crate::frame::Frame;
use crate::ppu::{Ppu, PpuError, PpuView, spec_ppu_tick};

verus! {

/// Console error taxonomy: everything the run loop can surface.
#[derive(Debug, PartialEq, Eq, Clone, Copy, Structural)]
pub enum NESError {
    CPU(CPUError),
    PPU(PpuError),
}

impl From<CPUError> for NESError {
    fn from(value: CPUError) -> (r: Self) {
        NESError::CPU(value)
    }
}

impl vstd::std_specs::convert::FromSpecImpl<CPUError> for NESError {
    open spec fn obeys_from_spec() -> bool {
        true
    }

    open spec fn from_spec(value: CPUError) -> Self {
        NESError::CPU(value)
    }
}

/// NES console.
pub struct NES {
    pub cpu: CPU,
}

/// What one console step reports.
#[derive(Debug, PartialEq, Eq, Clone, Copy, Structural)]
pub struct StepReport {
    /// False exactly when the CPU fetched BRK, which ends the run.
    pub running: bool,
    /// True exactly on the NMI edge: the frame is complete and ready for the
    /// host.
    pub frame_ready: bool,
}

/// The power-on state of the whole console: zeroed memories, the CPU's
/// reset register file, and both pads idle.
pub open spec fn spec_initial_console() -> CpuView {
    CpuView {
        register_a: 0,
        register_x: 0,
        register_y: 0,
        status: 0b100100,
        program_counter: 0,
        stack_pointer: 0xfd,
        remaining_cycles: 0,
        mem: CpuMemView::Bus(
            CpuBusView {
                vram: Seq::new(2048, |i: int| 0u8),
                prg_rom: Seq::<u8>::empty(),
                ppu: Some(spec_initial_ppu()),
                joypad1: Some(Joypad { strobe: false, button_index: 0, button_status: 0 }),
                joypad2: Some(Joypad { strobe: false, button_index: 0, button_status: 0 }),
            },
        ),
    }
}

/// The power-on state of the PPU inside the console.
pub open spec fn spec_initial_ppu() -> PpuView {
    PpuView {
        addr: crate::registers::AddrRegister { value_hi: 0, value_lo: 0, hi_ptr: true },
        ctrl: crate::registers::ControlRegister { bits: 0 },
        mask: crate::registers::MaskRegister { bits: 0 },
        status: crate::registers::StatusRegister { bits: 0 },
        scroll: crate::registers::ScrollRegister { scroll_x: 0, scroll_y: 0, latch: false },
        oam_addr: 0,
        oam_data: Seq::new(256, |i: int| 0u8),
        scanline: 0,
        cycle: 0,
        nmi_interrupt: false,
        bus: crate::ppu_bus::PpuBusView {
            chr_rom: Seq::<u8>::empty(),
            palette_table: Seq::new(32, |i: int| 0u8),
            vram: Seq::new(2048, |i: int| 0u8),
            mirroring: crate::cartridge::Mirroring::Vertical,
            internal_data_buf: 0,
            cartridge_connected: false,
        },
        frame: Seq::new((256 * 240 * 3) as nat, |i: int| 0u8),
    }
}

/// One console step: one CPU cycle, then three PPU dots; reports the NMI
/// edge between the state before the CPU cycle and after the PPU dots.
pub open spec fn spec_nes_step(c: CpuView) -> (CpuView, StepReport) {
    let before = match c.mem {
        CpuMemView::Bus(b) => match b.ppu {
            Some(p) => p.nmi_interrupt,
            None => false,
        },
        CpuMemView::Flat(_) => false,
    };
    let t = spec_cpu_tick(c);
    match t.0.mem {
        CpuMemView::Bus(b) => match b.ppu {
            Some(p) => {
                let p1 = spec_ppu_tick(p).0;
                let p2 = spec_ppu_tick(p1).0;
                let p3 = spec_ppu_tick(p2).0;
                let c2 = CpuView { mem: CpuMemView::Bus(CpuBusView { ppu: Some(p3), ..b }), ..t.0 };
                (
                    c2,
                    StepReport { running: t.1, frame_ready: !before && p3.nmi_interrupt },
                )
            },
            None => (t.0, StepReport { running: t.1, frame_ready: false }),
        },
        CpuMemView::Flat(_) => (t.0, StepReport { running: t.1, frame_ready: false }),
    }
}

/// The console after `fuel` steps, stopping early at BRK.
pub open spec fn spec_nes_run(c: CpuView, fuel: nat) -> CpuView
    decreases fuel,
{
    if fuel == 0 {
        c
    } else {
        let stepped = spec_nes_step(c);
        if stepped.1.running {
            spec_nes_run(stepped.0, (fuel - 1) as nat)
        } else {
            stepped.0
        }
    }
}

/// Connecting a cartridge: the PRG banks land on the CPU bus, the CHR banks
/// and mirroring mode on the PPU bus.
pub open spec fn spec_nes_insert(c: CpuView, cartridge: Cartridge) -> CpuView {
    match c.mem {
        CpuMemView::Bus(b) => {
            let ppu = match b.ppu {
                Some(p) => Some(
                    PpuView {
                        bus: crate::ppu_bus::PpuBusView {
                            chr_rom: cartridge.chr_rom@,
                            mirroring: cartridge.screen_mirroring,
                            cartridge_connected: true,
                            ..p.bus
                        },
                        ..p
                    },
                ),
                None => None,
            };
            CpuView {
                mem: CpuMemView::Bus(CpuBusView { prg_rom: cartridge.prg_rom@, ppu: ppu, ..b }),
                ..c
            }
        },
        CpuMemView::Flat(_) => c,
    }
}

impl NES {
    /// A console with CPU, buses and PPU wired, and both joypads connected.
    pub fn new() -> (nes: NES)
        ensures
            nes.cpu@.wf(),
            nes.cpu@ == spec_initial_console(),
    {
        let mut cpu = CPU::new();
        let mut bus = CpuBus::new();
        let ppu = Ppu::new();
        bus.connect_ppu(ppu);
        bus.connect_joypad1(Joypad::new());
        bus.connect_joypad2(Joypad::new());
        cpu.connect_bus(bus);
        let nes = NES { cpu };
        proof {
            assert(nes.cpu@ =~~= spec_initial_console());
        }
        nes
    }

    /// Connects a cartridge: PRG to the CPU bus, CHR and mirroring to the
    /// PPU bus.
    pub fn insert(&mut self, cartridge: Cartridge)
        requires
            old(self).cpu@.wf(),
        ensures
            final(self).cpu@.wf(),
            final(self).cpu@.mem matches CpuMemView::Bus(b) ==> b.prg_rom == cartridge.prg_rom@,
            old(self).cpu@.mem is Flat ==> final(self).cpu@ == old(self).cpu@,
    {
        match &mut self.cpu.mem {
            CpuMem::Bus(bus) => {
                bus.connect_cartridge(&cartridge);
                match &mut bus.ppu {
                    Some(ppu) => {
                        ppu.connect_cartridge(&cartridge);
                    },
                    None => {},
                }
            },
            CpuMem::Flat(_) => {},
        }
    }

    /// Resets the CPU; the program counter comes from the reset vector.
    pub fn reset(&mut self)
        requires
            old(self).cpu@.wf(),
        ensures
            final(self).cpu@ == spec_cpu_reset(old(self).cpu@),
            final(self).cpu@.wf(),
    {
        self.cpu.reset();
    }

    /// Forces execution to start at a given address.
    pub fn start_at(&mut self, addr: u16)
        ensures
            final(self).cpu@ == (CpuView { program_counter: addr, ..old(self).cpu@ }),
    {
        self.cpu.program_counter = addr;
        proof {
            assert(self.cpu@ =~= CpuView { program_counter: addr, ..old(self).cpu@ });
        }
    }

    /// One CPU cycle and three PPU dots; reports BRK and the frame edge.
    pub fn step(&mut self) -> (r: Result<StepReport, NESError>)
        requires
            old(self).cpu@.wf(),
        ensures
            final(self).cpu@ == spec_nes_step(old(self).cpu@).0,
            r == Ok::<StepReport, NESError>(spec_nes_step(old(self).cpu@).1),
            final(self).cpu@.wf(),
    {
        let before = self.nmi_pending();
        let running = match self.cpu.tick() {
            Ok(cont) => cont,
            Err(e) => {
                return Err(NESError::CPU(e));
            },
        };
        match &mut self.cpu.mem {
            CpuMem::Bus(bus) => {
                match &mut bus.ppu {
                    Some(ppu) => {
                        let r1 = ppu.tick();
                        if r1.is_err() {
                            return Err(NESError::PPU(PpuError::Unknown));
                        }
                        let r2 = ppu.tick();
                        if r2.is_err() {
                            return Err(NESError::PPU(PpuError::Unknown));
                        }
                        let r3 = ppu.tick();
                        if r3.is_err() {
                            return Err(NESError::PPU(PpuError::Unknown));
                        }
                        let after = ppu.nmi_interrupt();
                        proof {
                            assert(self.cpu@ =~= spec_nes_step(old(self).cpu@).0);
                        }
                        Ok(StepReport { running, frame_ready: !before && after })
                    },
                    None => Ok(StepReport { running, frame_ready: false }),
                }
            },
            CpuMem::Flat(_) => Ok(StepReport { running, frame_ready: false }),
        }
    }

    /// Whether an NMI is pending in the PPU.
    pub fn nmi_pending(&self) -> (r: bool)
        ensures
            r == match self.cpu@.mem {
                CpuMemView::Bus(b) => match b.ppu {
                    Some(p) => p.nmi_interrupt,
                    None => false,
                },
                CpuMemView::Flat(_) => false,
            },
    {
        match &self.cpu.mem {
            CpuMem::Bus(bus) => match &bus.ppu {
                Some(ppu) => ppu.nmi_interrupt(),
                None => false,
            },
            CpuMem::Flat(_) => false,
        }
    }

    /// Whether the CPU sits on an instruction boundary.
    pub fn on_instruction_boundary(&self) -> (r: bool)
        ensures
            r == (self.cpu@.remaining_cycles == 0),
    {
        self.cpu.instruction_changed()
    }

    /// A read-only view of the finished frame, when a PPU is wired.
    pub fn frame(&self) -> (r: Option<&Frame>)
        ensures
            match self.cpu@.mem {
                CpuMemView::Bus(b) => match b.ppu {
                    Some(p) => r is Some && r.unwrap().data@ == p.frame,
                    None => r is None,
                },
                CpuMemView::Flat(_) => r is None,
            },
    {
        match &self.cpu.mem {
            CpuMem::Bus(bus) => match &bus.ppu {
                Some(ppu) => Some(&ppu.frame),
                None => None,
            },
            CpuMem::Flat(_) => None,
        }
    }

    /// Host-side button injection into joypad 1.
    pub fn press_joypad1(&mut self, button: JoypadButton, pressed: bool)
        ensures
            final(self).cpu@ == match old(self).cpu@.mem {
                CpuMemView::Bus(b) => match b.joypad1 {
                    Some(j) => (CpuView {
                        mem: CpuMemView::Bus(
                            CpuBusView {
                                joypad1: Some(
                                    Joypad {
                                        button_status: if pressed {
                                            j.button_status | spec_button_mask(button)
                                        } else {
                                            j.button_status & !spec_button_mask(button)
                                        },
                                        ..j
                                    },
                                ),
                                ..b
                            },
                        ),
                        ..old(self).cpu@
                    }),
                    None => old(self).cpu@,
                },
                CpuMemView::Flat(_) => old(self).cpu@,
            },
    {
        match &mut self.cpu.mem {
            CpuMem::Bus(bus) => match &mut bus.joypad1 {
                Some(joypad) => {
                    joypad.set_button_pressed_status(button, pressed);
                    proof {
                        assert(self.cpu@ =~= match old(self).cpu@.mem {
                            CpuMemView::Bus(b) => match b.joypad1 {
                                Some(j) => (CpuView {
                                    mem: CpuMemView::Bus(
                                        CpuBusView {
                                            joypad1: Some(
                                                Joypad {
                                                    button_status: if pressed {
                                                        j.button_status | spec_button_mask(button)
                                                    } else {
                                                        j.button_status & !spec_button_mask(button)
                                                    },
                                                    ..j
                                                },
                                            ),
                                            ..b
                                        },
                                    ),
                                    ..old(self).cpu@
                                }),
                                None => old(self).cpu@,
                            },
                            CpuMemView::Flat(_) => old(self).cpu@,
                        });
                    }
                },
                None => {},
            },
            CpuMem::Flat(_) => {},
        }
    }

    /// Runs until BRK stops the program (or the cycle budget runs dry).
    pub fn run(&mut self) -> (r: Result<(), NESError>)
        requires
            old(self).cpu@.wf(),
        ensures
            r == Ok::<(), NESError>(()),
            final(self).cpu@ == spec_nes_run(old(self).cpu@, RUN_FUEL as nat),
            final(self).cpu@.wf(),
    {
        let mut fuel: u64 = RUN_FUEL;
        while fuel > 0
            invariant
                self.cpu@.wf(),
                spec_nes_run(self.cpu@, fuel as nat) == spec_nes_run(old(self).cpu@, RUN_FUEL as nat),
            decreases fuel,
        {
            let report = match self.step() {
                Ok(report) => report,
                Err(e) => {
                    return Err(e);
                },
            };
            if !report.running {
                return Ok(());
            }
            fuel = fuel - 1;
        }
        Ok(())
    }
}

} // verus!
