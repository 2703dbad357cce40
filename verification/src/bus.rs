//! The bus: a pure router that owns every addressable component and
//! dispatches each read and write to exactly one of them by priority
//! (boot ROM over cartridge), recovering every miss locally: unmapped
//! reads yield `$FF` and unmapped writes are dropped.  The bus also
//! advances the peripherals one M-cycle at a time around the CPU's
//! accesses.

use vstd::prelude::*;

use crate::boot_rom::{boot_byte, boot_program_byte, BootRom};
use crate::cartridge::Cartridge;
use crate::dma::Dma;
use crate::interrupts::{if_byte, if_of_byte, InterruptFlags, if_and};
use crate::joypad::{p1_read_spec, Input, P1};
use crate::memory::Memory;
use crate::ppu::{lcdc_ppu_on, line_clock_iter, line_clock_next, Ppu};
use crate::time::SystemTime;
use crate::timer::Timer;
use crate::variant::GameBoyVariant;
use crate::wram::WRam;

verus! {

/// Why a region did not answer an access.  All variants are recovered by
/// the bus: a read falls through to the next-priority owner or to `$FF`,
/// a write is dropped.
#[derive(Debug, Clone, Copy, PartialEq, Eq, Structural)]
pub enum AddressingError {
    /// No owner for the address.
    Unmapped,
    /// The owner exists but is switched off (the boot ROM after its lock).
    Disabled,
    /// The owner is gone for good.
    Unplugged,
}

/// The saturating counter step used for time accounting.
pub open spec fn sat_add(a: int, n: int) -> int {
    if a + n <= u64::MAX {
        a + n
    } else {
        u64::MAX as int
    }
}

/// The bus and everything it routes to.
#[derive(Debug)]
pub struct Bus {
    pub variant: GameBoyVariant,
    pub boot_rom: BootRom,
    pub cartridge: Cartridge,
    pub wram: WRam,
    pub hram: Memory,
    pub ppu: Ppu,
    pub timer: Timer,
    pub dma: Dma,
    pub joypad: P1,
    /// The interrupt-request register `IF`.
    pub iflags: InterruptFlags,
    /// The interrupt-enable register `IE`.
    pub ie: InterruptFlags,
    pub double_speed: bool,
    pub switch_armed: bool,
    /// Emulated time in base-rate master clocks.
    pub time: SystemTime,
    /// M-cycles elapsed, for duration accounting.
    pub mcycles: u64,
}

impl Bus {
    /// The structural invariant of the whole machine state.
    pub open spec fn wf(self) -> bool {
        &&& self.wram.wf()
        &&& self.ppu.wf()
        &&& self.dma.wf()
        &&& self.hram.inner@.len() == 0x7F
        &&& self.ppu.color == self.variant.is_color_variant_spec()
        &&& self.wram.memory@.len() == (if self.variant.is_color_variant_spec() {
            0x8000int
        } else {
            0x2000
        })
        &&& (!self.variant.is_color_variant_spec() ==> self.wram.bank == 0)
    }

    /// What a read of `addr` returns: each address is answered by exactly
    /// one owner, chosen by priority; addresses nothing owns read `$FF`.
    #[verifier::opaque]
    pub open spec fn read_spec(self, addr: int) -> int {
        if addr < 0x100 && self.boot_rom.enabled {
            boot_byte(addr)
        } else if addr < 0x8000 {
            match self.cartridge.rom_read_spec(addr) {
                Some(v) => v as int,
                None => 0xFF,
            }
        } else if addr < 0xA000 {
            self.ppu.vram@[addr - 0x8000 + self.ppu.vram_bank as int * 0x2000] as int
        } else if addr < 0xC000 {
            match self.cartridge.ram_read_spec(addr) {
                Some(v) => v as int,
                None => 0xFF,
            }
        } else if addr < 0xE000 {
            self.wram.memory@[self.wram.index_spec(addr - 0xC000)] as int
        } else if addr < 0xFE00 {
            self.wram.memory@[self.wram.index_spec(addr - 0xE000)] as int
        } else if addr < 0xFEA0 {
            self.ppu.oam@[addr - 0xFE00] as int
        } else if addr < 0xFF00 {
            0xFF
        } else if addr == 0xFF00 {
            p1_read_spec(self.joypad)
        } else if addr == 0xFF04 {
            self.timer.sys_clock as int / 64 % 256
        } else if addr == 0xFF05 {
            self.timer.tima as int
        } else if addr == 0xFF06 {
            self.timer.tma as int
        } else if addr == 0xFF07 {
            0xF8 + self.timer.tac as int % 8
        } else if addr == 0xFF0F {
            if_byte(self.iflags) + 0xE0
        } else if addr == 0xFF40 {
            self.ppu.lcdc as int
        } else if addr == 0xFF41 {
            self.ppu.stat_read_spec()
        } else if addr == 0xFF42 {
            self.ppu.scy as int
        } else if addr == 0xFF43 {
            self.ppu.scx as int
        } else if addr == 0xFF44 {
            self.ppu.ly as int
        } else if addr == 0xFF45 {
            self.ppu.lyc as int
        } else if addr == 0xFF46 {
            self.dma.src as int
        } else if addr == 0xFF47 {
            self.ppu.bgp as int
        } else if addr == 0xFF48 {
            self.ppu.obp0 as int
        } else if addr == 0xFF49 {
            self.ppu.obp1 as int
        } else if addr == 0xFF4A {
            self.ppu.wy as int
        } else if addr == 0xFF4B {
            self.ppu.wx as int
        } else if addr == 0xFF4C {
            if !self.variant.is_color_variant_spec() || !self.boot_rom.enabled {
                0xFF
            } else if self.variant.is_dmg_compatible_spec() {
                0xFF
            } else {
                0xFB
            }
        } else if addr == 0xFF4D {
            if !self.variant.is_color_variant_spec() {
                0xFF
            } else {
                (if self.double_speed {
                    0x80int
                } else {
                    0
                }) + 0x7E + (if self.switch_armed {
                    1int
                } else {
                    0
                })
            }
        } else if addr == 0xFF4F {
            if self.variant.is_color_variant_spec() {
                0xFE + self.ppu.vram_bank as int
            } else {
                0xFF
            }
        } else if addr == 0xFF68 {
            if self.variant.is_color_variant_spec() {
                self.ppu.bcps as int
            } else {
                0xFF
            }
        } else if addr == 0xFF69 {
            if self.variant.is_color_variant_spec() {
                self.ppu.bcg_palette@[self.ppu.bcps as int % 32] as int
            } else {
                0xFF
            }
        } else if addr == 0xFF6A {
            if self.variant.is_color_variant_spec() {
                self.ppu.ocps as int
            } else {
                0xFF
            }
        } else if addr == 0xFF6B {
            if self.variant.is_color_variant_spec() {
                self.ppu.obj_palette@[self.ppu.ocps as int % 32] as int
            } else {
                0xFF
            }
        } else if addr == 0xFF70 {
            if self.variant.is_color_variant_spec() {
                0xF8 + self.wram.bank as int
            } else {
                0xFF
            }
        } else if 0xFF80 <= addr < 0xFFFF {
            self.hram.inner@[addr - 0xFF80] as int
        } else if addr == 0xFFFF {
            if_byte(self.ie) + 0xE0
        } else {
            0xFF
        }
    }

    /// Read one byte; reads have no side effect on the machine.
    pub fn read(&self, addr: u16) -> (r: u8)
        requires
            self.wf(),
        ensures
            r as int == self.read_spec(addr as int),
    {
        proof {
            reveal(Bus::read_spec);
        }
        if addr < 0x100 && self.boot_rom.is_enabled() {
            boot_program_byte(addr)
        } else if addr < 0x8000 {
            match self.cartridge.read_rom(addr) {
                Ok(v) => v,
                Err(_) => 0xFF,
            }
        } else if addr < 0xA000 {
            self.ppu.read_vram(addr - 0x8000)
        } else if addr < 0xC000 {
            match self.cartridge.read_ram(addr) {
                Ok(v) => v,
                Err(_) => 0xFF,
            }
        } else if addr < 0xE000 {
            self.wram.read(addr - 0xC000)
        } else if addr < 0xFE00 {
            self.wram.read(addr - 0xE000)
        } else if addr < 0xFEA0 {
            self.ppu.read_oam(addr - 0xFE00)
        } else if addr < 0xFF00 {
            0xFF
        } else if addr == 0xFF00 {
            self.joypad.read()
        } else if addr == 0xFF04 {
            self.timer.read_div()
        } else if addr == 0xFF05 {
            self.timer.read_tima()
        } else if addr == 0xFF06 {
            self.timer.read_tma()
        } else if addr == 0xFF07 {
            self.timer.read_tac()
        } else if addr == 0xFF0F {
            self.iflags.to_byte()
        } else if addr == 0xFF40 {
            self.ppu.lcdc
        } else if addr == 0xFF41 {
            self.ppu.get_stat()
        } else if addr == 0xFF42 {
            self.ppu.scy
        } else if addr == 0xFF43 {
            self.ppu.scx
        } else if addr == 0xFF44 {
            self.ppu.ly
        } else if addr == 0xFF45 {
            self.ppu.lyc
        } else if addr == 0xFF46 {
            self.dma.source()
        } else if addr == 0xFF47 {
            self.ppu.bgp
        } else if addr == 0xFF48 {
            self.ppu.obp0
        } else if addr == 0xFF49 {
            self.ppu.obp1
        } else if addr == 0xFF4A {
            self.ppu.wy
        } else if addr == 0xFF4B {
            self.ppu.wx
        } else if addr == 0xFF4C {
            if !self.variant.is_color_variant() || !self.boot_rom.is_enabled() {
                0xFF
            } else if self.variant.is_dmg_compatible() {
                0xFF
            } else {
                0xFB
            }
        } else if addr == 0xFF4D {
            if !self.variant.is_color_variant() {
                0xFF
            } else {
                let mut r: u8 = 0x7E;
                if self.double_speed {
                    r = r + 0x80;
                }
                if self.switch_armed {
                    r = r + 1;
                }
                r
            }
        } else if addr == 0xFF4F {
            if self.variant.is_color_variant() {
                self.ppu.read_vbk()
            } else {
                0xFF
            }
        } else if addr == 0xFF68 {
            if self.variant.is_color_variant() {
                self.ppu.bcps
            } else {
                0xFF
            }
        } else if addr == 0xFF69 {
            if self.variant.is_color_variant() {
                self.ppu.read_bcpd()
            } else {
                0xFF
            }
        } else if addr == 0xFF6A {
            if self.variant.is_color_variant() {
                self.ppu.ocps
            } else {
                0xFF
            }
        } else if addr == 0xFF6B {
            if self.variant.is_color_variant() {
                self.ppu.read_ocpd()
            } else {
                0xFF
            }
        } else if addr == 0xFF70 {
            if self.variant.is_color_variant() {
                self.wram.read_bank_reg()
            } else {
                0xFF
            }
        } else if 0xFF80 <= addr && addr < 0xFFFF {
            self.hram.read(addr - 0xFF80)
        } else if addr == 0xFFFF {
            self.ie.to_byte()
        } else {
            0xFF
        }
    }

    /// The relation between the machine before and after a write of `v`
    /// to `addr`: the targeted owner changes as its own contract says,
    /// everything else stays.
    pub open spec fn write_rel(pre: Bus, post: Bus, addr: int, v: u8) -> bool {
        if addr < 0x8000 || (0xA000 <= addr < 0xC000) {
            &&& post == (Bus { cartridge: post.cartridge, ..pre })
            &&& post.cartridge.mbc == pre.cartridge.mbc_after_write_spec(addr, v)
            &&& post.cartridge.ram@ == pre.cartridge.ram_after_write_spec(addr, v)
            &&& post.cartridge.rom@ == pre.cartridge.rom@
            &&& post.cartridge.battery == pre.cartridge.battery
            &&& post.cartridge.title@ == pre.cartridge.title@
            &&& post.cartridge.cgb_flag == pre.cartridge.cgb_flag
        } else if 0x8000 <= addr < 0xA000 {
            &&& post == (Bus { ppu: post.ppu, ..pre })
            &&& post.ppu == (Ppu { vram: post.ppu.vram, ..pre.ppu })
            &&& post.ppu.vram@ == pre.ppu.vram@.update(
                addr - 0x8000 + pre.ppu.vram_bank as int * 0x2000,
                v,
            )
        } else if 0xC000 <= addr < 0xE000 {
            &&& post == (Bus { wram: post.wram, ..pre })
            &&& post.wram.bank == pre.wram.bank
            &&& post.wram.memory@ == pre.wram.memory@.update(
                pre.wram.index_spec(addr - 0xC000),
                v,
            )
        } else if 0xE000 <= addr < 0xFE00 {
            &&& post == (Bus { wram: post.wram, ..pre })
            &&& post.wram.bank == pre.wram.bank
            &&& post.wram.memory@ == pre.wram.memory@.update(
                pre.wram.index_spec(addr - 0xE000),
                v,
            )
        } else if 0xFE00 <= addr < 0xFEA0 {
            &&& post == (Bus { ppu: post.ppu, ..pre })
            &&& post.ppu == (Ppu { oam: post.ppu.oam, ..pre.ppu })
            &&& post.ppu.oam@ == pre.ppu.oam@.update(addr - 0xFE00, v)
        } else if addr == 0xFF00 {
            post == (Bus {
                joypad: (P1 {
                    select_buttons: v as int % 64 < 32,
                    select_dpad: v as int % 32 < 16,
                    ..pre.joypad
                }),
                ..pre
            })
        } else if addr == 0xFF04 {
            post == (Bus { timer: pre.timer.write_div_spec(), ..pre })
        } else if addr == 0xFF05 {
            post == (Bus { timer: (Timer { tima: v, ..pre.timer }), ..pre })
        } else if addr == 0xFF06 {
            post == (Bus { timer: (Timer { tma: v, ..pre.timer }), ..pre })
        } else if addr == 0xFF07 {
            post == (Bus {
                timer: pre.timer.write_tac_spec(v, pre.variant.is_color_variant_spec()),
                ..pre
            })
        } else if addr == 0xFF0F {
            post == (Bus { iflags: if_of_byte(v as int), ..pre })
        } else if addr == 0xFF40 {
            &&& post == (Bus { ppu: post.ppu, ..pre })
            &&& post.ppu.lcdc == v
            &&& (!lcdc_ppu_on(v as int) ==> post.ppu.ly == 0 && post.ppu.line_dot == 0)
            &&& (lcdc_ppu_on(v as int) ==> post.ppu.ly == pre.ppu.ly && post.ppu.line_dot
                == pre.ppu.line_dot)
            &&& post.ppu == (Ppu {
                lcdc: v,
                ly: post.ppu.ly,
                line_dot: post.ppu.line_dot,
                ..pre.ppu
            })
        } else if addr == 0xFF41 {
            post == (Bus {
                ppu: (Ppu { stat_sel: (v as int / 8 % 16) as u8, ..pre.ppu }),
                ..pre
            })
        } else if addr == 0xFF42 {
            post == (Bus { ppu: (Ppu { scy: v, ..pre.ppu }), ..pre })
        } else if addr == 0xFF43 {
            post == (Bus { ppu: (Ppu { scx: v, ..pre.ppu }), ..pre })
        } else if addr == 0xFF45 {
            post == (Bus { ppu: (Ppu { lyc: v, ..pre.ppu }), ..pre })
        } else if addr == 0xFF46 {
            post == (Bus { dma: (Dma { active: true, src: v, idx: 0 }), ..pre })
        } else if addr == 0xFF47 {
            post == (Bus { ppu: (Ppu { bgp: v, ..pre.ppu }), ..pre })
        } else if addr == 0xFF48 {
            post == (Bus { ppu: (Ppu { obp0: v, ..pre.ppu }), ..pre })
        } else if addr == 0xFF49 {
            post == (Bus { ppu: (Ppu { obp1: v, ..pre.ppu }), ..pre })
        } else if addr == 0xFF4A {
            post == (Bus { ppu: (Ppu { wy: v, ..pre.ppu }), ..pre })
        } else if addr == 0xFF4B {
            post == (Bus { ppu: (Ppu { wx: v, ..pre.ppu }), ..pre })
        } else if addr == 0xFF4C {
            if pre.variant.is_color_variant_spec() && pre.boot_rom.enabled && v as int / 4 % 2
                == 1 {
                post == (Bus {
                    variant: (match pre.variant {
                        GameBoyVariant::CGB0 { .. } => GameBoyVariant::CGB0 {
                            dmg_compatibility: true,
                        },
                        _ => GameBoyVariant::CGB { dmg_compatibility: true },
                    }),
                    ..pre
                })
            } else {
                post == pre
            }
        } else if addr == 0xFF4D {
            if pre.variant.is_color_variant_spec() {
                post == (Bus { switch_armed: v as int % 2 == 1, ..pre })
            } else {
                post == pre
            }
        } else if addr == 0xFF4F {
            if pre.variant.is_color_variant_spec() {
                post == (Bus {
                    ppu: (Ppu { vram_bank: (v as int % 2) as u8, ..pre.ppu }),
                    ..pre
                })
            } else {
                post == pre
            }
        } else if addr == 0xFF50 {
            if v != 0 {
                post == (Bus { boot_rom: (BootRom { enabled: false }), ..pre })
            } else {
                post == pre
            }
        } else if addr == 0xFF68 {
            if pre.variant.is_color_variant_spec() {
                post == (Bus { ppu: (Ppu { bcps: v, ..pre.ppu }), ..pre })
            } else {
                post == pre
            }
        } else if addr == 0xFF69 {
            if pre.variant.is_color_variant_spec() {
                &&& post == (Bus { ppu: post.ppu, ..pre })
                &&& post.ppu == (Ppu {
                    bcg_palette: post.ppu.bcg_palette,
                    bcps: post.ppu.bcps,
                    ..pre.ppu
                })
                &&& post.ppu.bcg_palette@ == pre.ppu.bcg_palette@.update(
                    pre.ppu.bcps as int % 32,
                    v,
                )
                &&& post.ppu.bcps as int == (if pre.ppu.bcps >= 128 {
                    128 + (pre.ppu.bcps as int % 32 + 1) % 32
                } else {
                    pre.ppu.bcps as int
                })
            } else {
                post == pre
            }
        } else if addr == 0xFF6A {
            if pre.variant.is_color_variant_spec() {
                post == (Bus { ppu: (Ppu { ocps: v, ..pre.ppu }), ..pre })
            } else {
                post == pre
            }
        } else if addr == 0xFF6B {
            if pre.variant.is_color_variant_spec() {
                &&& post == (Bus { ppu: post.ppu, ..pre })
                &&& post.ppu == (Ppu {
                    obj_palette: post.ppu.obj_palette,
                    ocps: post.ppu.ocps,
                    ..pre.ppu
                })
                &&& post.ppu.obj_palette@ == pre.ppu.obj_palette@.update(
                    pre.ppu.ocps as int % 32,
                    v,
                )
                &&& post.ppu.ocps as int == (if pre.ppu.ocps >= 128 {
                    128 + (pre.ppu.ocps as int % 32 + 1) % 32
                } else {
                    pre.ppu.ocps as int
                })
            } else {
                post == pre
            }
        } else if addr == 0xFF70 {
            if pre.variant.is_color_variant_spec() {
                &&& post == (Bus { wram: post.wram, ..pre })
                &&& post.wram.memory@ == pre.wram.memory@
                &&& post.wram.bank as int == v as int % 8
            } else {
                post == pre
            }
        } else if 0xFF80 <= addr < 0xFFFF {
            &&& post == (Bus { hram: post.hram, ..pre })
            &&& post.hram.inner@ == pre.hram.inner@.update(addr - 0xFF80, v)
        } else if addr == 0xFFFF {
            post == (Bus { ie: if_of_byte(v as int), ..pre })
        } else {
            post == pre
        }
    }

    /// Dispatch one write.  Writes below the boot overlay still reach the
    /// cartridge's control registers: the overlay answers reads only.
    #[verifier::rlimit(100)]
    #[verifier::spinoff_prover]
    pub fn write(&mut self, addr: u16, v: u8)
        requires
            old(self).wf(),
        ensures
            final(self).wf(),
            Bus::write_rel(*old(self), *final(self), addr as int, v),
    {
        if addr < 0x8000 {
            self.cartridge.write(addr, v);
        } else if addr < 0xA000 {
            self.ppu.write_vram(addr - 0x8000, v);
        } else if addr < 0xC000 {
            self.cartridge.write(addr, v);
        } else if addr < 0xE000 {
            self.wram.write(addr - 0xC000, v);
        } else if addr < 0xFE00 {
            self.wram.write(addr - 0xE000, v);
        } else if addr < 0xFEA0 {
            self.ppu.write_oam(addr - 0xFE00, v);
        } else if addr < 0xFF00 {
        } else if addr == 0xFF00 {
            self.joypad.write(v);
        } else if addr == 0xFF04 {
            self.timer.write_div();
        } else if addr == 0xFF05 {
            self.timer.write_tima(v);
        } else if addr == 0xFF06 {
            self.timer.write_tma(v);
        } else if addr == 0xFF07 {
            let cgb = self.variant.is_color_variant();
            self.timer.write_tac(v, cgb);
        } else if addr == 0xFF0F {
            self.iflags = InterruptFlags::from_byte(v);
        } else if addr == 0xFF40 {
            self.ppu.set_lcdc(v);
        } else if addr == 0xFF41 {
            self.ppu.set_stat(v);
        } else if addr == 0xFF42 {
            self.ppu.scy = v;
        } else if addr == 0xFF43 {
            self.ppu.scx = v;
        } else if addr == 0xFF45 {
            self.ppu.lyc = v;
        } else if addr == 0xFF46 {
            self.dma.set(v);
        } else if addr == 0xFF47 {
            self.ppu.bgp = v;
        } else if addr == 0xFF48 {
            self.ppu.obp0 = v;
        } else if addr == 0xFF49 {
            self.ppu.obp1 = v;
        } else if addr == 0xFF4A {
            self.ppu.wy = v;
        } else if addr == 0xFF4B {
            self.ppu.wx = v;
        } else if addr == 0xFF4C {
            if self.variant.is_color_variant() && self.boot_rom.is_enabled() && v / 4 % 2 == 1 {
                self.variant.set_dmg_compatibility();
            }
        } else if addr == 0xFF4D {
            if self.variant.is_color_variant() {
                self.switch_armed = v % 2 == 1;
            }
        } else if addr == 0xFF4F {
            if self.variant.is_color_variant() {
                self.ppu.write_vbk(v);
            }
        } else if addr == 0xFF50 {
            if v != 0 {
                self.boot_rom.disable();
            }
        } else if addr == 0xFF68 {
            if self.variant.is_color_variant() {
                self.ppu.bcps = v;
            }
        } else if addr == 0xFF69 {
            if self.variant.is_color_variant() {
                self.ppu.write_bcpd(v);
            }
        } else if addr == 0xFF6A {
            if self.variant.is_color_variant() {
                self.ppu.ocps = v;
            }
        } else if addr == 0xFF6B {
            if self.variant.is_color_variant() {
                self.ppu.write_ocpd(v);
            }
        } else if addr == 0xFF70 {
            if self.variant.is_color_variant() {
                self.wram.write_bank_reg(v);
            }
        } else if 0xFF80 <= addr && addr < 0xFFFF {
            self.hram.write(addr - 0xFF80, v);
        } else if addr == 0xFFFF {
            self.ie = InterruptFlags::from_byte(v);
        }
    }

    /// The machine state between the timer step and the DMA transfer of
    /// one M-cycle: what the DMA fetch reads from.
    pub open spec fn mid_of_tick(pre: Bus, stopped: bool) -> Bus {
        if stopped {
            pre
        } else {
            Bus {
                timer: pre.timer.step_spec(),
                iflags: (InterruptFlags {
                    timer: pre.iflags.timer || pre.timer.step_irq_spec(),
                    ..pre.iflags
                }),
                ..pre
            }
        }
    }

    /// Whether the line clock crosses the VBlank entry (end of line 143)
    /// within `n` dots.
    pub open spec fn vblank_crossed(ppu: Ppu, n: nat) -> bool {
        lcdc_ppu_on(ppu.lcdc as int) && exists|k: int|
            0 <= k < n && #[trigger] line_clock_iter(ppu.ly as int, ppu.line_dot as int, k as nat)
                == (143int, 455int)
    }

    /// The relation of the timer-and-DMA half of one M-cycle: the timer
    /// steps (raising its interrupt on the delayed reload) and a running
    /// DMA copies one byte into OAM; in STOP both stand still.
    pub open spec fn td_rel(pre: Bus, post: Bus, stopped: bool) -> bool {
        let mid = Bus::mid_of_tick(pre, stopped);
        let dma_runs = !stopped && pre.dma.active;
        &&& post.timer == mid.timer
        &&& post.iflags == mid.iflags
        &&& (!stopped ==> post.dma == (if pre.dma.active {
            Dma { active: pre.dma.idx < 159, src: pre.dma.src, idx: (pre.dma.idx + 1) as u8 }
        } else {
            pre.dma
        }))
        &&& (stopped ==> post.dma == pre.dma)
        &&& post.ppu.oam@ == (if dma_runs {
            pre.ppu.oam@.update(
                pre.dma.idx as int,
                (mid.read_spec(pre.dma.src as int * 0x100 + pre.dma.idx as int)) as u8,
            )
        } else {
            pre.ppu.oam@
        })
        &&& post.ppu == (Ppu { oam: post.ppu.oam, ..pre.ppu })
        &&& post == (Bus {
            timer: post.timer,
            iflags: post.iflags,
            dma: post.dma,
            ppu: post.ppu,
            ..pre
        })
    }

    /// The relation of the PPU half of one M-cycle: the dot clock runs
    /// for four dots (two in double speed), VBlank is raised on entry
    /// into the vertical blank, and the LCD interrupt on a rising STAT
    /// edge.
    pub open spec fn dots_rel(pre: Bus, post: Bus) -> bool {
        let dots: nat = if pre.double_speed {
            2
        } else {
            4
        };
        &&& post.iflags.timer == pre.iflags.timer
        &&& post.iflags.serial == pre.iflags.serial
        &&& post.iflags.joypad == pre.iflags.joypad
        &&& post.iflags.vblank == (pre.iflags.vblank || Bus::vblank_crossed(pre.ppu, dots))
        &&& (pre.iflags.lcd ==> post.iflags.lcd)
        &&& (lcdc_ppu_on(pre.ppu.lcdc as int) ==> (post.ppu.ly as int, post.ppu.line_dot as int)
            == line_clock_iter(pre.ppu.ly as int, pre.ppu.line_dot as int, dots))
        &&& (!lcdc_ppu_on(pre.ppu.lcdc as int) ==> post.ppu == pre.ppu)
        &&& post.ppu.oam@ == pre.ppu.oam@
        &&& post.ppu.frame@.len() == pre.ppu.frame@.len()
        &&& post.ppu.vram@ == pre.ppu.vram@
        &&& post.ppu.vram_bank == pre.ppu.vram_bank
        &&& post.ppu.color == pre.ppu.color
        &&& post.ppu.lcdc == pre.ppu.lcdc
        &&& post.ppu.stat_sel == pre.ppu.stat_sel
        &&& post.ppu.scy == pre.ppu.scy
        &&& post.ppu.scx == pre.ppu.scx
        &&& post.ppu.lyc == pre.ppu.lyc
        &&& post.ppu.wy == pre.ppu.wy
        &&& post.ppu.wx == pre.ppu.wx
        &&& post.ppu.bgp == pre.ppu.bgp
        &&& post.ppu.obp0 == pre.ppu.obp0
        &&& post.ppu.obp1 == pre.ppu.obp1
        &&& post.ppu.bcps == pre.ppu.bcps
        &&& post.ppu.ocps == pre.ppu.ocps
        &&& post.ppu.bcg_palette@ == pre.ppu.bcg_palette@
        &&& post.ppu.obj_palette@ == pre.ppu.obj_palette@
        &&& post == (Bus { ppu: post.ppu, iflags: post.iflags, ..pre })
    }

    /// The relation between the machine before and after one M-cycle of
    /// the peripherals: time advances; unless the CPU sits in STOP, the
    /// timer steps and a running DMA copies one byte into OAM; the PPU
    /// always advances its dots.  The two halves run in order, and the
    /// time counters advance by one M-cycle (two master clocks in double
    /// speed, four otherwise).
    pub open spec fn tick_rel(pre: Bus, post: Bus, stopped: bool) -> bool {
        exists|td: Bus| #[trigger] Bus::tick_witness(pre, post, stopped, td)
    }

    /// One way the two halves of a tick can have run: `td` is the state
    /// between them.
    pub open spec fn tick_witness(pre: Bus, post: Bus, stopped: bool, td: Bus) -> bool {
        &&& Bus::td_rel(pre, td, stopped)
        &&& Bus::dots_rel(td, Bus { time: pre.time, mcycles: pre.mcycles, ..post })
        &&& post.time.base_master_clock_cycles as int == sat_add(
            pre.time.base_master_clock_cycles as int,
            if pre.double_speed {
                2int
            } else {
                4
            },
        )
        &&& post.mcycles as int == sat_add(pre.mcycles as int, 1)
    }

    #[verifier::rlimit(100)]
    #[verifier::spinoff_prover]
    fn tick_td(&mut self, stopped: bool)
        requires
            old(self).wf(),
        ensures
            final(self).wf(),
            Bus::td_rel(*old(self), *final(self), stopped),
    {
        let ghost pre = *old(self);
        if stopped {
            return ;
        }
        let irq = self.timer.clock();
        if irq {
            self.iflags.timer = true;
        }
        let ghost mid = Bus::mid_of_tick(pre, stopped);
        proof {
            assert(*self == mid);
        }
        if self.dma.active() {
            let a = self.dma.read_addr();
            let b = self.read(a);
            let i = self.dma.idx;
            self.ppu.write_oam(i as u16, b);
        }
        let transferred = self.dma.clock();
    }

    #[verifier::rlimit(100)]
    #[verifier::spinoff_prover]
    fn tick_dots(&mut self)
        requires
            old(self).wf(),
        ensures
            final(self).wf(),
            Bus::dots_rel(*old(self), *final(self)),
    {
        let ghost pre = *old(self);
        let ghost ly0 = pre.ppu.ly as int;
        let ghost dot0 = pre.ppu.line_dot as int;
        let ghost on = lcdc_ppu_on(pre.ppu.lcdc as int);
        let ghost dots: nat = if pre.double_speed {
            2
        } else {
            4
        };
        proof {
            lemma_line_clock_iter_unfold(ly0, dot0);
        }
        let (vb1, st1) = self.ppu.dot();
        if vb1 {
            self.iflags.vblank = true;
        }
        if st1 {
            self.iflags.lcd = true;
        }
        let ghost s1 = (self.ppu.ly as int, self.ppu.line_dot as int);
        let (vb2, st2) = self.ppu.dot();
        if vb2 {
            self.iflags.vblank = true;
        }
        if st2 {
            self.iflags.lcd = true;
        }
        let ghost s2 = (self.ppu.ly as int, self.ppu.line_dot as int);
        let mut vb3 = false;
        let mut vb4 = false;
        let ghost mut s3 = s2;
        if !self.double_speed {
            let (v3, st3) = self.ppu.dot();
            vb3 = v3;
            if vb3 {
                self.iflags.vblank = true;
            }
            if st3 {
                self.iflags.lcd = true;
            }
            proof {
                s3 = (self.ppu.ly as int, self.ppu.line_dot as int);
            }
            let (v4, st4) = self.ppu.dot();
            vb4 = v4;
            if vb4 {
                self.iflags.vblank = true;
            }
            if st4 {
                self.iflags.lcd = true;
            }
        }
        proof {
            if on {
                assert(line_clock_iter(ly0, dot0, 0) == (ly0, dot0));
                if pre.double_speed {
                    assert((self.ppu.ly as int, self.ppu.line_dot as int) == line_clock_iter(
                        ly0,
                        dot0,
                        2,
                    ));
                    if vb1 || vb2 {
                        assert(Bus::vblank_crossed(pre.ppu, 2)) by {
                            if vb1 {
                                assert(line_clock_iter(ly0, dot0, 0) == (143int, 455int));
                            } else {
                                assert(line_clock_iter(ly0, dot0, 1) == (143int, 455int));
                            }
                        }
                    } else {
                        assert(!Bus::vblank_crossed(pre.ppu, 2)) by {
                            assert forall|k: int| 0 <= k < 2 implies #[trigger] line_clock_iter(
                                ly0,
                                dot0,
                                k as nat,
                            ) != (143int, 455int) by {
                                if k == 0 {
                                    assert(line_clock_iter(ly0, dot0, 0) == (ly0, dot0));
                                } else {
                                    assert(line_clock_iter(ly0, dot0, 1) == s1);
                                }
                            }
                        }
                    }
                } else {
                    assert((self.ppu.ly as int, self.ppu.line_dot as int) == line_clock_iter(
                        ly0,
                        dot0,
                        4,
                    ));
                    if vb1 || vb2 || vb3 || vb4 {
                        assert(Bus::vblank_crossed(pre.ppu, 4)) by {
                            if vb1 {
                                assert(line_clock_iter(ly0, dot0, 0) == (143int, 455int));
                            } else if vb2 {
                                assert(line_clock_iter(ly0, dot0, 1) == (143int, 455int));
                            } else if vb3 {
                                assert(line_clock_iter(ly0, dot0, 2) == (143int, 455int));
                            } else {
                                assert(line_clock_iter(ly0, dot0, 3) == (143int, 455int));
                            }
                        }
                    } else {
                        assert(!Bus::vblank_crossed(pre.ppu, 4)) by {
                            assert forall|k: int| 0 <= k < 4 implies #[trigger] line_clock_iter(
                                ly0,
                                dot0,
                                k as nat,
                            ) != (143int, 455int) by {
                                if k == 0 {
                                    assert(line_clock_iter(ly0, dot0, 0) == (ly0, dot0));
                                } else if k == 1 {
                                    assert(line_clock_iter(ly0, dot0, 1) == s1);
                                } else if k == 2 {
                                    assert(line_clock_iter(ly0, dot0, 2) == s2);
                                } else {
                                    assert(line_clock_iter(ly0, dot0, 3) == s3);
                                }
                            }
                        }
                    }
                }
            } else {
                assert(!Bus::vblank_crossed(pre.ppu, dots));
            }
            assert(self.iflags.timer == pre.iflags.timer);
            assert(self.iflags.serial == pre.iflags.serial);
            assert(self.iflags.joypad == pre.iflags.joypad);
            assert(self.iflags.vblank == (pre.iflags.vblank || Bus::vblank_crossed(
                pre.ppu,
                dots,
            )));
            assert(pre.iflags.lcd ==> self.iflags.lcd);
            assert(on ==> (self.ppu.ly as int, self.ppu.line_dot as int) == line_clock_iter(
                ly0,
                dot0,
                dots,
            ));
            assert(!on ==> self.ppu == pre.ppu);
            assert(self.ppu.oam@ == pre.ppu.oam@);
            assert(self.ppu.frame@.len() == pre.ppu.frame@.len());
            assert(*self == (Bus { ppu: self.ppu, iflags: self.iflags, ..pre }));
        }
    }

    /// Advance the peripherals one M-cycle.  `stopped` pauses the timer
    /// and DMA (the CPU sits in STOP); the PPU runs regardless.
    pub fn tick(&mut self, stopped: bool)
        requires
            old(self).wf(),
        ensures
            final(self).wf(),
            Bus::tick_rel(*old(self), *final(self), stopped),
    {
        let ghost pre = *old(self);
        self.tick_td(stopped);
        let ghost td = *self;
        self.tick_dots();
        let ghost d = *self;
        self.time = self.time.saturating_add(
            SystemTime::from_master_clocks(
                if self.double_speed {
                    2
                } else {
                    4
                },
            ),
        );
        self.mcycles = self.mcycles.saturating_add(1);
        proof {
            assert(Bus::td_rel(pre, td, stopped));
            assert(Bus::dots_rel(td, d));
            assert((Bus { time: pre.time, mcycles: pre.mcycles, ..*self }) == d) by {
                assert(d.time == td.time && d.mcycles == td.mcycles);
                assert(td.time == pre.time && td.mcycles == pre.mcycles);
            }
            assert(Bus::tick_witness(pre, *self, stopped, td));
        }
    }

    /// What every peripheral cycle leaves alone or does predictably:
    /// the convenience facts instruction code leans on.
    pub open spec fn cycle_frame(pre: Bus, post: Bus) -> bool {
        &&& post.wram == pre.wram
        &&& post.hram == pre.hram
        &&& post.cartridge == pre.cartridge
        &&& post.joypad == pre.joypad
        &&& post.ie == pre.ie
        &&& post.boot_rom == pre.boot_rom
        &&& post.variant == pre.variant
        &&& post.double_speed == pre.double_speed
        &&& post.switch_armed == pre.switch_armed
        &&& post.mcycles as int == sat_add(pre.mcycles as int, 1)
        &&& post.timer == pre.timer.step_spec()
        &&& post.ppu.vram@ == pre.ppu.vram@
        &&& post.ppu.oam@.len() == pre.ppu.oam@.len()
        &&& post.ppu.frame@.len() == pre.ppu.frame@.len()
        &&& post.ppu.lcdc == pre.ppu.lcdc
        &&& post.ppu.stat_sel == pre.ppu.stat_sel
        &&& post.ppu.scy == pre.ppu.scy
        &&& post.ppu.scx == pre.ppu.scx
        &&& post.ppu.lyc == pre.ppu.lyc
        &&& post.ppu.wy == pre.ppu.wy
        &&& post.ppu.wx == pre.ppu.wx
        &&& post.ppu.bgp == pre.ppu.bgp
        &&& post.ppu.obp0 == pre.ppu.obp0
        &&& post.ppu.obp1 == pre.ppu.obp1
        &&& post.ppu.vram_bank == pre.ppu.vram_bank
        &&& post.ppu.color == pre.ppu.color
        &&& (pre.iflags.vblank ==> post.iflags.vblank)
        &&& (pre.iflags.lcd ==> post.iflags.lcd)
        &&& (pre.iflags.timer ==> post.iflags.timer)
        &&& post.iflags.serial == pre.iflags.serial
        &&& post.iflags.joypad == pre.iflags.joypad
    }

    proof fn lemma_tick_frame(pre: Bus, post: Bus, stopped: bool)
        requires
            pre.wf(),
            !stopped,
            Bus::tick_rel(pre, post, stopped),
        ensures
            Bus::cycle_frame(pre, post),
    {
        let td = choose|td: Bus| #[trigger] Bus::tick_witness(pre, post, stopped, td);
        let post0 = Bus { time: pre.time, mcycles: pre.mcycles, ..post };
        assert(Bus::tick_witness(pre, post, stopped, td));
        assert(Bus::td_rel(pre, td, stopped));
        assert(Bus::dots_rel(td, post0));
        assert(td == (Bus { timer: td.timer, iflags: td.iflags, dma: td.dma, ppu: td.ppu, ..pre }));
        assert(post0 == (Bus { ppu: post0.ppu, iflags: post0.iflags, ..td }));
        assert(post.wram == pre.wram);
        assert(post.hram == pre.hram);
        assert(post.cartridge == pre.cartridge);
        assert(post.joypad == pre.joypad);
        assert(post.ie == pre.ie);
        assert(post.boot_rom == pre.boot_rom);
        assert(post.variant == pre.variant);
        assert(post.double_speed == pre.double_speed);
        assert(post.switch_armed == pre.switch_armed);
        assert(post.mcycles as int == sat_add(pre.mcycles as int, 1));
        assert(post.ppu.vram@ == pre.ppu.vram@);
        assert(post.ppu.oam@.len() == pre.ppu.oam@.len());
        assert(post.ppu.frame@.len() == pre.ppu.frame@.len());
        assert(post.ppu.lcdc == pre.ppu.lcdc);
        assert(pre.iflags.vblank ==> post.iflags.vblank);
        assert(pre.iflags.lcd ==> post.iflags.lcd);
        assert(pre.iflags.timer ==> post.iflags.timer);
        assert(post.iflags.serial == pre.iflags.serial);
        assert(post.iflags.joypad == pre.iflags.joypad);
    }

    /// One M-cycle with no CPU memory access.
    pub fn cycle(&mut self)
        requires
            old(self).wf(),
        ensures
            final(self).wf(),
            Bus::tick_rel(*old(self), *final(self), false),
            Bus::cycle_frame(*old(self), *final(self)),
    {
        self.tick(false);
        proof {
            Bus::lemma_tick_frame(*old(self), *self, false);
        }
    }

    /// One M-cycle carrying a CPU read: the value comes from the state
    /// before the peripherals advance.
    pub fn cycle_read(&mut self, addr: u16) -> (r: u8)
        requires
            old(self).wf(),
        ensures
            final(self).wf(),
            r as int == old(self).read_spec(addr as int),
            Bus::tick_rel(*old(self), *final(self), false),
            Bus::cycle_frame(*old(self), *final(self)),
    {
        let r = self.read(addr);
        self.tick(false);
        proof {
            Bus::lemma_tick_frame(*old(self), *self, false);
        }
        r
    }

    /// One M-cycle carrying a CPU write: the write lands first, then the
    /// peripherals advance.
    pub fn cycle_write(&mut self, addr: u16, v: u8)
        requires
            old(self).wf(),
        ensures
            final(self).wf(),
            exists|mid: Bus|
                #[trigger] Bus::write_rel(*old(self), mid, addr as int, v) && Bus::tick_rel(
                    mid,
                    *final(self),
                    false,
                ),
            final(self).mcycles as int == sat_add(old(self).mcycles as int, 1),
            0xC000 <= addr < 0xFE00 ==> final(self).wram.memory@ == old(
                self,
            ).wram.memory@.update(
                old(self).wram.index_spec(
                    if addr < 0xE000 {
                        addr as int - 0xC000
                    } else {
                        addr as int - 0xE000
                    },
                ),
                v,
            ) && final(self).wram.bank == old(self).wram.bank && final(self).hram == old(
                self,
            ).hram && final(self).boot_rom == old(self).boot_rom,
            0xFF80 <= addr < 0xFFFF ==> final(self).hram.inner@ == old(
                self,
            ).hram.inner@.update(addr as int - 0xFF80, v) && final(self).wram == old(self).wram
                && final(self).boot_rom == old(self).boot_rom,
    {
        let ghost pre = *old(self);
        self.write(addr, v);
        let ghost mid = *self;
        self.tick(false);
        proof {
            Bus::lemma_tick_frame(mid, *self, false);
            assert(Bus::write_rel(pre, mid, addr as int, v));
            assert(Bus::tick_rel(mid, *self, false));
        }
    }

    /// The interrupts both requested and enabled: what the CPU samples.
    pub fn sample_interrupts(&self) -> (r: InterruptFlags)
        ensures
            r == if_and(self.iflags, self.ie),
    {
        self.iflags.and(self.ie)
    }

    /// A fresh machine around a parsed cartridge, at time zero with the
    /// boot overlay enabled.
    pub fn new(variant: GameBoyVariant, cartridge: Cartridge) -> (r: Bus)
        ensures
            r.wf(),
            r.variant == variant,
            r.cartridge == cartridge,
            r.boot_rom.enabled,
            r.time.base_master_clock_cycles == 0,
            r.mcycles == 0,
            r.timer == (Timer { sys_clock: 0, tima: 0, tma: 0, tac: 0, overflowed: false }),
            r.iflags == InterruptFlags::empty_spec(),
            r.ie == InterruptFlags::empty_spec(),
            r.dma == (Dma { active: false, src: 0, idx: 0 }),
            !r.double_speed && !r.switch_armed,
            r.ppu.lcdc == 0 && r.ppu.ly == 0 && r.ppu.line_dot == 0,
    {
        let color = variant.is_color_variant();
        Bus {
            variant,
            boot_rom: BootRom::new(),
            cartridge,
            wram: WRam::new(&variant),
            hram: Memory::zeroed(0x7F),
            ppu: Ppu::new(color),
            timer: Timer::new(),
            dma: Dma::new(),
            joypad: P1::new(),
            iflags: InterruptFlags::new(),
            ie: InterruptFlags::new(),
            double_speed: false,
            switch_armed: false,
            time: SystemTime::new(),
            mcycles: 0,
        }
    }

    /// Toggle the speed mode at the end of a speed switch.
    pub fn toggle_speed(&mut self)
        ensures
            *final(self) == (Bus { double_speed: !old(self).double_speed, ..*old(self) }),
    {
        self.double_speed = !self.double_speed;
    }
}

/// The first four steps of the line clock, unfolded for the tick proof.
proof fn lemma_line_clock_iter_unfold(ly: int, dot: int)
    ensures
        line_clock_iter(ly, dot, 0) == (ly, dot),
        line_clock_iter(ly, dot, 1) == line_clock_next(ly, dot),
        line_clock_iter(ly, dot, 2) == line_clock_next(
            line_clock_iter(ly, dot, 1).0,
            line_clock_iter(ly, dot, 1).1,
        ),
        line_clock_iter(ly, dot, 3) == line_clock_next(
            line_clock_iter(ly, dot, 2).0,
            line_clock_iter(ly, dot, 2).1,
        ),
        line_clock_iter(ly, dot, 4) == line_clock_next(
            line_clock_iter(ly, dot, 3).0,
            line_clock_iter(ly, dot, 3).1,
        ),
{
    reveal_with_fuel(line_clock_iter, 6);
    assert(line_clock_iter(ly, dot, 1) == line_clock_next(ly, dot));
    assert(line_clock_iter(ly, dot, 2) == line_clock_next(
        line_clock_iter(ly, dot, 1).0,
        line_clock_iter(ly, dot, 1).1,
    ));
    assert(line_clock_iter(ly, dot, 3) == line_clock_next(
        line_clock_iter(ly, dot, 2).0,
        line_clock_iter(ly, dot, 2).1,
    ));
    assert(line_clock_iter(ly, dot, 4) == line_clock_next(
        line_clock_iter(ly, dot, 3).0,
        line_clock_iter(ly, dot, 3).1,
    ));
}

} // verus!
