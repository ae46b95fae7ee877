//! Core of a Nintendo Entertainment System emulator: the 6502 CPU with its
//! official and unofficial instruction set, the picture processing unit with
//! its register interface and scanline state machine, the two address buses,
//! the iNES cartridge loader and the joypad shift register.
//!
//! Every component is modelled by spec-level transition functions, and the
//! executable methods are proved to follow them exactly.
//!
//! - [`cartridge`]: the iNES image loader.
//! - [`controller`]: the joypad shift register.
//! - [`registers`], [`ppu_bus`], [`ppu`], [`render`], [`frame`], [`palette`]:
//!   the picture processing unit, its bus and its two rendering passes.
//! - [`cpu`], [`opcode`], [`instructions`], [`unofficial`], [`execution`],
//!   [`trace`], [`cpu_bus`]: the 6502 and its bus.
//! - [`nes`]: the console that wires them at the 1:3 cycle ratio.
//! - [`laws`]: the cross-cutting guarantees, proved once over the models.

pub mod cartridge;
pub mod controller;
pub mod cpu;
pub mod cpu_bus;
pub mod execution;
pub mod opcode;
pub mod frame;
pub mod nes;
pub mod instructions;
pub mod laws;
pub mod palette;
pub mod ppu;
pub mod ppu_bus;
pub mod registers;
pub mod render;
pub mod trace;
pub mod unofficial;

pub use cartridge::Cartridge;
pub use cartridge::CartridgeError;
pub use cartridge::Mirroring;
pub use controller::Joypad;
pub use controller::JoypadButton;
pub use cpu::CPU;
pub use cpu::CPUError;
pub use cpu_bus::CpuBus;
pub use frame::Frame;
pub use nes::NES;
pub use nes::NESError;
pub use ppu::Ppu;
pub use ppu::PpuError;
pub use ppu_bus::PPUBus;
