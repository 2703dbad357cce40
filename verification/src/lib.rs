//! Core emulation engine of a Game Boy / Game Boy Color system.
//!
//! The library models the SM83 processor cycle by cycle together with the
//! bus-addressable peripherals that surround it: the pixel-processing unit,
//! the timer/divider block, OAM DMA, the joypad register, the cartridge
//! memory bank controller and the interrupt arbitration that ties them
//! together.  The host window, input polling and ROM file I/O live outside
//! the library; they push plain values in and take plain values out.

pub mod alu;
pub mod boot_rom;
pub mod bus;
pub mod cartridge;
pub mod cpu;
pub mod dma;
pub mod events;
pub mod interrupts;
pub mod joypad;
pub mod laws;
pub mod mbc;
pub mod memory;
pub mod oam_buf;
pub mod ppu;
pub mod opcode;
pub mod regs;
pub mod system;
pub mod time;
pub mod timer;
pub mod variant;
pub mod wram;

pub use boot_rom::BootRom;
pub use bus::AddressingError;
pub use dma::Dma;
pub use events::Events;
pub use cartridge::{Cartridge, CartridgeParseError};
pub use cpu::{CPUState, Cpu};
pub use interrupts::{Interrupt, InterruptFlags};
pub use joypad::{Input, JoypadInput, P1};
pub use mbc::MemoryBankController;
pub use memory::Memory;
pub use ppu::{Pixel, Ppu};
pub use opcode::{CBOpcode, Condition, Opcode, R8, R16mem};
pub use system::System;
pub use regs::{Flags, Reg16, Reg8, Registers};
pub use time::SystemTime;
pub use timer::Timer;
pub use variant::GameBoyVariant;
pub use wram::WRam;
