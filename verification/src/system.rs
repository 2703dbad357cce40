//! The system harness: a fixed composition of the CPU core and the bus
//! that clocks everything in lockstep and exposes stepping, input and
//! the finished frames to the host.

use vstd::prelude::*;

use crate::bus::Bus;
use crate::cartridge::{Cartridge, CartridgeParseError};
use crate::cpu::Cpu;
use crate::events::Events;
use crate::joypad::Input;
use crate::ppu::Pixel;
use crate::time::SystemTime;
use crate::variant::GameBoyVariant;

verus! {

/// The whole machine: the CPU core and the bus owning every peripheral.
#[derive(Debug)]
pub struct System {
    pub cpu: Cpu,
    pub bus: Bus,
}

impl System {
    /// The system invariant.
    pub open spec fn wf(self) -> bool {
        self.bus.wf()
    }

    /// A monochrome machine around a ROM image, at power-on with the
    /// boot overlay enabled.  The only failure is an unknown
    /// cartridge-type byte in the header.
    pub fn now(rom: Vec<u8>) -> (r: Result<System, CartridgeParseError>)
        ensures
            r is Ok <==> crate::cartridge::known_cartridge_type(
                crate::cartridge::header_byte(rom@, 0x147),
            ),
            r matches Ok(s) ==> s.wf() && s.bus.boot_rom.enabled && s.cpu == Cpu::new_spec(),
    {
        let cartridge = match Cartridge::from_rom(rom) {
            Ok(c) => c,
            Err(e) => {
                return Err(e);
            }
        };
        Ok(
            System {
                cpu: Cpu::new(),
                bus: Bus::new(GameBoyVariant::DMG, cartridge),
            },
        )
    }

    /// The same machine with the boot overlay already unlocked, starting
    /// execution at the cartridge entry point: what a test harness uses
    /// to run code without the startup program.
    pub fn now_without_boot_rom(rom: Vec<u8>) -> (r: Result<System, CartridgeParseError>)
        ensures
            r is Ok <==> crate::cartridge::known_cartridge_type(
                crate::cartridge::header_byte(rom@, 0x147),
            ),
            r matches Ok(s) ==> s.wf() && !s.bus.boot_rom.enabled,
    {
        let mut s = match System::now(rom) {
            Ok(s) => s,
            Err(e) => {
                return Err(e);
            }
        };
        s.bus.boot_rom.disable();
        Ok(s)
    }

    /// The emulated time so far.
    pub fn time(&self) -> (r: SystemTime)
        ensures
            r == self.bus.time,
    {
        self.bus.time
    }

    /// Run one CPU step (an instruction, a dispatch, or an idle cycle of
    /// a waiting state) and report what it observed: entry into VBlank,
    /// and the glitch signal when the core hit an unspecified state.
    pub fn step(&mut self) -> (ev: Events)
        requires
            old(self).wf(),
        ensures
            final(self).wf(),
            crate::cpu::step_rel(old(self).cpu, old(self).bus, final(self).cpu, final(self).bus),
            ev.vblank == (!old(self).bus.ppu.frame_ready && final(self).bus.ppu.frame_ready),
            ev.breakpoint == (!old(self).cpu.glitched && final(self).cpu.glitched),
    {
        let frame_before = self.bus.ppu.frame_is_ready();
        let glitch_before = self.cpu.glitched;
        self.cpu.step(&mut self.bus);
        Events {
            vblank: !frame_before && self.bus.ppu.frame_is_ready(),
            breakpoint: !glitch_before && self.cpu.glitched,
        }
    }

    /// Step until the frame buffer holds a finished frame, up to
    /// `max_steps` CPU steps (a frame takes well under 70224 steps; the
    /// bound keeps the loop total when the PPU is switched off).
    /// Reports whether a frame is ready.
    pub fn step_frame(&mut self, max_steps: u32) -> (r: bool)
        requires
            old(self).wf(),
        ensures
            final(self).wf(),
            r == final(self).bus.ppu.frame_ready,
    {
        let mut i: u32 = 0;
        while i < max_steps && !self.bus.ppu.frame_is_ready()
            invariant
                self.wf(),
            decreases max_steps - i,
        {
            let ev = self.step();
            i = i + 1;
        }
        self.bus.ppu.frame_is_ready()
    }

    /// Advance by (at least) a span of emulated time, up to `max_steps`
    /// CPU steps.  Returns the elapsed time.
    pub fn advance(&mut self, delta: SystemTime, max_steps: u32) -> (r: SystemTime)
        requires
            old(self).wf(),
        ensures
            final(self).wf(),
    {
        let start = self.time();
        let target = start.saturating_add(delta);
        let mut i: u32 = 0;
        while i < max_steps && self.time().is_before(target)
            invariant
                self.wf(),
            decreases max_steps - i,
        {
            let ev = self.step();
            i = i + 1;
        }
        let now = self.time();
        if start.is_before(now) {
            now.since(start)
        } else {
            SystemTime::new()
        }
    }

    /// Replace the whole pressed-button set; a falling interrupt line
    /// raises the joypad interrupt.
    pub fn set_input(&mut self, input: Input)
        requires
            old(self).wf(),
        ensures
            final(self).wf(),
    {
        let irq = self.bus.joypad.set_input(input);
        if irq {
            self.bus.iflags.joypad = true;
        }
    }

    /// Press the buttons of `mask` (the `INPUT_` constants).
    pub fn press_key(&mut self, mask: u8)
        requires
            old(self).wf(),
        ensures
            final(self).wf(),
    {
        let irq = self.bus.joypad.press(mask);
        if irq {
            self.bus.iflags.joypad = true;
        }
    }

    /// Release the buttons of `mask`.
    pub fn unpress_key(&mut self, mask: u8)
        requires
            old(self).wf(),
        ensures
            final(self).wf(),
    {
        let irq = self.bus.joypad.unpress(mask);
        if irq {
            self.bus.iflags.joypad = true;
        }
    }

    /// Whether a finished frame waits to be collected.
    pub fn frame_is_ready(&self) -> (r: bool)
        ensures
            r == self.bus.ppu.frame_ready,
    {
        self.bus.ppu.frame_is_ready()
    }

    /// Collect the finished frame and clear the ready latch.
    pub fn get_frame(&mut self) -> (r: Vec<Pixel>)
        requires
            old(self).wf(),
        ensures
            final(self).wf(),
            r@ == old(self).bus.ppu.frame@,
    {
        self.bus.ppu.get_frame()
    }

    /// Whether the boot overlay has been locked out.
    pub fn boot_rom_disabled(&self) -> (r: bool)
        ensures
            r == !self.bus.boot_rom.enabled,
    {
        !self.bus.boot_rom.is_enabled()
    }

    /// The address of the instruction about to execute: where the last
    /// prefetch read its opcode.
    pub fn current_instruction_addr(&self) -> (r: u16)
        ensures
            r == self.cpu.instr_addr,
    {
        self.cpu.instr_addr
    }

    /// Read the bus without side effects, for inspection.
    pub fn peek(&self, addr: u16) -> (r: u8)
        requires
            self.wf(),
        ensures
            r as int == self.bus.read_spec(addr as int),
    {
        self.bus.read(addr)
    }
}

} // verus!
