//! SM83 CPU core: the machine-cycle interpreter.  Every instruction ends
//! with a prefetch cycle that reads the next opcode and samples the
//! interrupt lines; interrupt dispatch, HALT, STOP, the EI delay and the
//! HALT bug all hang off that discipline.

use vstd::prelude::*;

use crate::alu;
use crate::alu::{
    add16_spec, add_spec, adc_spec, addsp_spec, and_flags, bit_flags_spec, daa_spec, dec_spec,
    inc_spec, logic_flags, res_spec, rl_spec, rlc_spec, rr_spec, rrc_spec, sbc_spec, set_spec,
    sla_spec, sra_spec, srl_spec, sub_spec, swap_spec,
};
use crate::bus::{sat_add, Bus};
use crate::interrupts::{highest_priority_spec, if_and, InterruptFlags};
use crate::opcode::{cb_decode_of, decode_of, CBOpcode, Condition, Opcode, R8, R16mem};
use crate::regs::{flags_byte, Flags, Reg16, Reg8, Registers};

verus! {

/// The CPU control state.  `Halt` carries the countdown of a running
/// speed switch (zero when halting for an interrupt).
#[derive(Debug, Clone, Copy, PartialEq, Eq, Structural)]
pub enum CPUState {
    Normal,
    Halt(u32),
    Stop,
}

impl CPUState {
    pub fn reset(&mut self)
        ensures
            *final(self) == CPUState::Normal,
    {
        *self = CPUState::Normal;
    }

    pub fn set_halt(&mut self)
        ensures
            *final(self) == CPUState::Halt(0),
    {
        *self = CPUState::Halt(0);
    }

    pub fn set_halt_timer(&mut self, timer: u32)
        ensures
            *final(self) == CPUState::Halt(timer),
    {
        *self = CPUState::Halt(timer);
    }

    /// Step a nonzero halt countdown; the result says whether it just
    /// ran out (the speed switch finishes).
    pub fn dec_halt_timer(&mut self) -> (r: bool)
        ensures
            *final(self) == (match *old(self) {
                CPUState::Halt(t) => if t > 0 {
                    CPUState::Halt((t - 1) as u32)
                } else {
                    CPUState::Halt(t)
                },
                _ => *old(self),
            }),
            r == (*old(self) == CPUState::Halt(1u32)),
    {
        if let CPUState::Halt(timer) = self {
            if *timer == 0 {
                return false;
            }
            *timer = *timer - 1;
            if *timer == 0 {
                return true;
            }
        }
        false
    }

    pub fn set_stop(&mut self)
        ensures
            *final(self) == CPUState::Stop,
    {
        *self = CPUState::Stop;
    }

    pub fn is_halt(&self) -> (r: bool)
        ensures
            r == (*self matches CPUState::Halt(_)),
    {
        matches!(self, CPUState::Halt(_))
    }

    pub fn is_stop(&self) -> (r: bool)
        ensures
            r == (*self == CPUState::Stop),
    {
        matches!(self, CPUState::Stop)
    }
}

/// Whether a branch condition holds under the given flags.
pub open spec fn cond_holds(c: Condition, fl: Flags) -> bool {
    match c {
        Condition::NZ => !fl.z,
        Condition::Z => fl.z,
        Condition::NC => !fl.c,
        Condition::C => fl.c,
    }
}

/// The documented M-cycle count of a primary opcode under the given
/// flags (conditional forms take an extra cycle when taken).  `PREFIX`
/// is excluded: its count depends on the following byte.
pub open spec fn primary_duration(op: Opcode, fl: Flags) -> int {
    match op {
        Opcode::NOP => 1,
        Opcode::LD_r16_imm16 { .. } => 3,
        Opcode::LD_r16mem_a { .. } => 2,
        Opcode::LD_a_r16mem { .. } => 2,
        Opcode::LD_imm16_sp => 5,
        Opcode::INC_r16 { .. } => 2,
        Opcode::DEC_r16 { .. } => 2,
        Opcode::ADD_hl_r16 { .. } => 2,
        Opcode::INC_r8 { r8 } => if r8 is HLaddr {
            3int
        } else {
            1
        },
        Opcode::DEC_r8 { r8 } => if r8 is HLaddr {
            3int
        } else {
            1
        },
        Opcode::LD_r8_imm8 { r8 } => if r8 is HLaddr {
            3int
        } else {
            2
        },
        Opcode::RLCA => 1,
        Opcode::RRCA => 1,
        Opcode::RLA => 1,
        Opcode::RRA => 1,
        Opcode::DAA => 1,
        Opcode::CPL => 1,
        Opcode::SCF => 1,
        Opcode::CCF => 1,
        Opcode::JR_imm8 => 3,
        Opcode::JR_cond_imm8 { cond } => if cond_holds(cond, fl) {
            3int
        } else {
            2
        },
        Opcode::STOP => 2,
        Opcode::LD_r8_r8 { dest, src } => if dest == src {
            1int
        } else if dest is HLaddr || src is HLaddr {
            2
        } else {
            1
        },
        Opcode::HALT => 1,
        Opcode::ADD_a_r8 { r8 } => if r8 is HLaddr {
            2int
        } else {
            1
        },
        Opcode::ADC_a_r8 { r8 } => if r8 is HLaddr {
            2int
        } else {
            1
        },
        Opcode::SUB_a_r8 { r8 } => if r8 is HLaddr {
            2int
        } else {
            1
        },
        Opcode::SBC_a_r8 { r8 } => if r8 is HLaddr {
            2int
        } else {
            1
        },
        Opcode::AND_a_r8 { r8 } => if r8 is HLaddr {
            2int
        } else {
            1
        },
        Opcode::XOR_a_r8 { r8 } => if r8 is HLaddr {
            2int
        } else {
            1
        },
        Opcode::OR_a_r8 { r8 } => if r8 is HLaddr {
            2int
        } else {
            1
        },
        Opcode::CP_a_r8 { r8 } => if r8 is HLaddr {
            2int
        } else {
            1
        },
        Opcode::ADD_a_imm8 => 2,
        Opcode::ADC_a_imm8 => 2,
        Opcode::SUB_a_imm8 => 2,
        Opcode::SBC_a_imm8 => 2,
        Opcode::AND_a_imm8 => 2,
        Opcode::XOR_a_imm8 => 2,
        Opcode::OR_a_imm8 => 2,
        Opcode::CP_a_imm8 => 2,
        Opcode::RET_cond { cond } => if cond_holds(cond, fl) {
            5int
        } else {
            2
        },
        Opcode::RET => 4,
        Opcode::RETI => 4,
        Opcode::JP_cond_imm16 { cond } => if cond_holds(cond, fl) {
            4int
        } else {
            3
        },
        Opcode::JP_imm16 => 4,
        Opcode::JP_hl => 1,
        Opcode::CALL_cond_imm16 { cond } => if cond_holds(cond, fl) {
            6int
        } else {
            3
        },
        Opcode::CALL_imm16 => 6,
        Opcode::RST { .. } => 4,
        Opcode::POP { .. } => 3,
        Opcode::PUSH { .. } => 4,
        Opcode::PREFIX => 2,
        Opcode::LDH_c_a => 2,
        Opcode::LDH_imm8_a => 3,
        Opcode::LD_imm16_a => 4,
        Opcode::LDH_a_c => 2,
        Opcode::LDH_a_imm8 => 3,
        Opcode::LD_a_imm16 => 4,
        Opcode::ADD_sp_imm8 => 4,
        Opcode::LD_hl_spimm8 => 3,
        Opcode::LD_sp_hl => 2,
        Opcode::DI => 1,
        Opcode::EI => 1,
        Opcode::INVALID => 0,
    }
}

/// The M-cycle count of a CB opcode, the prefix byte's own read cycle
/// excluded.
pub open spec fn cb_duration(op: CBOpcode) -> int {
    let r8 = match op {
        CBOpcode::RLC { r8 } => r8,
        CBOpcode::RRC { r8 } => r8,
        CBOpcode::RL { r8 } => r8,
        CBOpcode::RR { r8 } => r8,
        CBOpcode::SLA { r8 } => r8,
        CBOpcode::SRA { r8 } => r8,
        CBOpcode::SWAP { r8 } => r8,
        CBOpcode::SRL { r8 } => r8,
        CBOpcode::BIT { r8, .. } => r8,
        CBOpcode::RES { r8, .. } => r8,
        CBOpcode::SET { r8, .. } => r8,
    };
    if r8 is HLaddr {
        if op matches CBOpcode::BIT { .. } {
            2int
        } else {
            3
        }
    } else {
        1
    }
}

/// The SM83 core: the register file, the interrupt-enable flag, the
/// prefetched opcode with the address it came from, the latched pending
/// interrupts and the control state.
#[derive(Debug, Clone, Copy, PartialEq, Eq, Structural)]
pub struct Cpu {
    pub regs: Registers,
    pub ime: bool,
    /// The opcode fetched by the last prefetch cycle.
    pub opcode: Opcode,
    /// The address the prefetched opcode was read from: where execution
    /// stands at an instruction boundary.
    pub instr_addr: u16,
    /// The interrupts latched for servicing at the last prefetch (only
    /// while IME is set).
    pub rqst: InterruptFlags,
    pub state: CPUState,
    /// Set when the CPU hit an unspecified state (an invalid opcode or
    /// the glitched STOP corner); the core stops and signals an event.
    pub glitched: bool,
}

impl Cpu {
    /// A core at power-on: everything zero, a no-op prefetched.
    pub fn new() -> (r: Cpu)
        ensures
            r == Cpu::new_spec(),
    {
        Cpu {
            regs: Registers::new(),
            ime: false,
            opcode: Opcode::NOP,
            instr_addr: 0,
            rqst: InterruptFlags::new(),
            state: CPUState::Normal,
            glitched: false,
        }
    }

    pub open spec fn new_spec() -> Cpu {
        Cpu {
            regs: Registers::new_spec(),
            ime: false,
            opcode: Opcode::NOP,
            instr_addr: 0,
            rqst: InterruptFlags::empty_spec(),
            state: CPUState::Normal,
            glitched: false,
        }
    }

    /// The prefetch cycle ending every instruction: read the opcode at
    /// `PC`, step `PC` past it (unless the HALT bug holds it back), and
    /// latch the pending interrupts if IME is set.  The one-instruction
    /// EI delay falls out: `EI` raises IME only after this sample.
    pub fn cycle_prefetch(&mut self, bus: &mut Bus)
        requires
            old(bus).wf(),
        ensures
            final(bus).wf(),
            Bus::cycle_frame(*old(bus), *final(bus)),
            final(self).opcode == decode_of(
                old(bus).read_spec(old(self).regs.pc as int),
            ),
            final(self).instr_addr == old(self).regs.pc,
            ({
                let bug = old(self).opcode == Opcode::HALT && !old(self).ime
                    && highest_priority_spec(
                    if_and(final(bus).iflags, final(bus).ie),
                ) is Some;
                final(self).regs.pc == (if bug {
                    old(self).regs.pc
                } else {
                    old(self).regs.pc.wrapping_add(1)
                })
            }),
            final(self).rqst == (if old(self).ime {
                if_and(final(bus).iflags, final(bus).ie)
            } else {
                old(self).rqst
            }),
            final(self).regs == (Registers { pc: final(self).regs.pc, ..old(self).regs }),
            final(self).ime == old(self).ime,
            final(self).state == old(self).state,
            final(self).glitched == old(self).glitched,
            final(self).state == old(self).state && final(self).glitched == old(self).glitched,
    {
        let pc = self.regs.pc;
        let b = bus.cycle_read(pc);
        let pending = bus.sample_interrupts();
        let bug = matches!(self.opcode, Opcode::HALT) && !self.ime && pending.has_interrupt();
        if !bug {
            self.regs.inc_pc();
        }
        self.opcode = Opcode::lookup(b);
        self.instr_addr = pc;
        if self.ime {
            self.rqst = pending;
        }
    }

    /// Read a byte at `PC` and step past it (an immediate operand).
    fn cycle_read_pc(&mut self, bus: &mut Bus) -> (r: u8)
        requires
            old(bus).wf(),
        ensures
            final(bus).wf(),
            Bus::cycle_frame(*old(bus), *final(bus)),
            r as int == old(bus).read_spec(old(self).regs.pc as int),
            final(self).regs.pc == old(self).regs.pc.wrapping_add(1),
            *final(self) == (Cpu {
                regs: (Registers { pc: final(self).regs.pc, ..old(self).regs }),
                ..*old(self)
            }),
    {
        let pc = self.regs.pc;
        let r = bus.cycle_read(pc);
        self.regs.inc_pc();
        r
    }

    /// Push a 16-bit value: one internal cycle, then the high and low
    /// bytes at the decremented stack addresses.
    pub fn cycle_push16(&mut self, bus: &mut Bus, data: u16)
        requires
            old(bus).wf(),
        ensures
            final(bus).wf(),
            final(bus).mcycles as int == sat_add(old(bus).mcycles as int, 3),
            final(self).regs.sp == old(self).regs.sp.wrapping_sub(2),
            *final(self) == (Cpu {
                regs: (Registers { sp: final(self).regs.sp, ..old(self).regs }),
                ..*old(self)
            }),
            stack_ram(old(self).regs.sp.wrapping_sub(1) as int) && stack_ram(
                old(self).regs.sp.wrapping_sub(2) as int,
            ) ==> final(bus).read_spec(old(self).regs.sp.wrapping_sub(1) as int) == data as int
                / 256 && final(bus).read_spec(old(self).regs.sp.wrapping_sub(2) as int)
                == data as int % 256,
    {
        let hi = (data / 256) as u8;
        let lo = (data % 256) as u8;
        bus.cycle();
        let ghost g1 = *bus;
        self.regs.sp = self.regs.sp.wrapping_sub(1);
        let a1 = self.regs.sp;
        bus.cycle_write(a1, hi);
        let ghost g2 = *bus;
        self.regs.sp = self.regs.sp.wrapping_sub(1);
        let a2 = self.regs.sp;
        bus.cycle_write(a2, lo);
        proof {
            if stack_ram(a1 as int) && stack_ram(a2 as int) {
                lemma_two_stack_writes(g1, g2, *bus, a1, hi, a2, lo);
            }
        }
    }

    /// Pop a 16-bit value: the low byte, then the high byte.
    pub fn cycle_pop16(&mut self, bus: &mut Bus) -> (r: u16)
        requires
            old(bus).wf(),
        ensures
            final(bus).wf(),
            final(bus).mcycles as int == sat_add(old(bus).mcycles as int, 2),
            final(self).regs.sp == old(self).regs.sp.wrapping_add(2),
            *final(self) == (Cpu {
                regs: (Registers { sp: final(self).regs.sp, ..old(self).regs }),
                ..*old(self)
            }),
            stack_ram(old(self).regs.sp.wrapping_add(1) as int) ==> r as int == old(bus).read_spec(old(self).regs.sp as int) + 256 * old(bus).read_spec(
                old(self).regs.sp.wrapping_add(1) as int,
            ),
    {
        let ghost pre = *old(bus);
        let sp0 = self.regs.sp;
        let lo = bus.cycle_read(sp0);
        let ghost m = *bus;
        self.regs.sp = self.regs.sp.wrapping_add(1);
        let sp1 = self.regs.sp;
        let hi = bus.cycle_read(sp1);
        self.regs.sp = self.regs.sp.wrapping_add(1);
        proof {
            if stack_ram(sp1 as int) {
                lemma_cycle_preserves_read(pre, m, sp1 as int);
            }
        }
        (hi as u16) * 256 + (lo as u16)
    }
}

/// How the dispatch vector follows from a sampled request set: the
/// handler of its highest-priority member, or `$0000` when the set is
/// empty (the request was withdrawn before the low-byte push).
pub open spec fn dispatch_pick(pend: InterruptFlags, vector: int) -> bool {
    match highest_priority_spec(pend) {
        Some(i) => vector == crate::interrupts::handler_address_spec(i),
        None => vector == 0,
    }
}

/// Addresses whose storage is plain RAM for the stack contracts: work
/// RAM (echo included) and HRAM.
pub open spec fn stack_ram(addr: int) -> bool {
    (0xC000 <= addr < 0xFE00) || (0xFF80 <= addr < 0xFFFF)
}

/// The relative work-RAM offset of a bus address in the work-RAM or
/// echo range.
pub open spec fn wram_rel(addr: int) -> int {
    if addr < 0xE000 {
        addr - 0xC000
    } else {
        addr - 0xE000
    }
}

/// Every bus read yields a byte value.
proof fn lemma_read_spec_in_byte_range(b: Bus, addr: int)
    requires
        b.wf(),
    ensures
        0 <= b.read_spec(addr) < 256,
{
    reveal(Bus::read_spec);
    reveal(crate::boot_rom::boot_byte);
    let bn = crate::joypad::buttons_nibble_spec(b.joypad.input);
    let dn = crate::joypad::dpad_nibble_spec(b.joypad.input);
    assert(15u8 & bn <= 15) by (bit_vector);
    assert(15u8 & dn <= 15) by (bit_vector);
    let w = 15u8 & bn;
    assert(w & dn <= w) by (bit_vector);
}

/// A peripheral cycle does not change what stack RAM reads.
proof fn lemma_cycle_preserves_read(pre: Bus, post: Bus, addr: int)
    requires
        post.wram == pre.wram,
        post.hram == pre.hram,
        stack_ram(addr),
    ensures
        post.read_spec(addr) == pre.read_spec(addr),
{    reveal(Bus::read_spec);
}

/// A write-cycle into stack RAM leaves the byte readable there.  `g1` is
/// the state before the write-cycle, `g2` after it.
proof fn lemma_one_stack_write(g1: Bus, g2: Bus, a: u16, v: u8)
    requires
        g1.wf(),
        stack_ram(a as int),
        0xC000 <= a < 0xFE00 ==> g2.wram.memory@ == g1.wram.memory@.update(
            g1.wram.index_spec(wram_rel(a as int)),
            v,
        ) && g2.wram.bank == g1.wram.bank,
        0xFF80 <= a < 0xFFFF ==> g2.hram.inner@ == g1.hram.inner@.update(a as int - 0xFF80, v),
    ensures
        g2.read_spec(a as int) == v as int,
{
    reveal(Bus::read_spec);
    if 0xC000 <= a < 0xFE00 {
        let rel = wram_rel(a as int);
        g1.wram.lemma_index_distinct(rel, rel);
        assert(g2.wram.index_spec(rel) == g1.wram.index_spec(rel));
    }
}

/// Writing two distinct stack-RAM addresses on consecutive cycles leaves
/// both bytes readable: what `push` relies on.  `g1` is the state before
/// the first write-cycle, `g2` between the two, `post` after the second.
proof fn lemma_two_stack_writes(g1: Bus, g2: Bus, post: Bus, a1: u16, v1: u8, a2: u16, v2: u8)
    requires
        g1.wf(),
        g2.wf(),
        stack_ram(a1 as int),
        stack_ram(a2 as int),
        a2 == a1.wrapping_sub(1) || a2 == a1.wrapping_add(1),
        g2.mcycles as int == sat_add(g1.mcycles as int, 1),
        0xC000 <= a1 < 0xFE00 ==> g2.wram.memory@ == g1.wram.memory@.update(
            g1.wram.index_spec(wram_rel(a1 as int)),
            v1,
        ) && g2.wram.bank == g1.wram.bank && g2.hram == g1.hram && g2.boot_rom == g1.boot_rom,
        0xFF80 <= a1 < 0xFFFF ==> g2.hram.inner@ == g1.hram.inner@.update(a1 as int - 0xFF80, v1)
            && g2.wram == g1.wram && g2.boot_rom == g1.boot_rom,
        0xC000 <= a2 < 0xFE00 ==> post.wram.memory@ == g2.wram.memory@.update(
            g2.wram.index_spec(wram_rel(a2 as int)),
            v2,
        ) && post.wram.bank == g2.wram.bank && post.hram == g2.hram && post.boot_rom
            == g2.boot_rom,
        0xFF80 <= a2 < 0xFFFF ==> post.hram.inner@ == g2.hram.inner@.update(a2 as int - 0xFF80, v2)
            && post.wram == g2.wram && post.boot_rom == g2.boot_rom,
    ensures
        post.read_spec(a1 as int) == v1 as int,
        post.read_spec(a2 as int) == v2 as int,
{
    reveal(Bus::read_spec);
    if 0xC000 <= a1 < 0xFE00 {
        assert(0xC000 <= a2 < 0xFE00) by {
            assert(a2 == a1 - 1 || a2 == a1 + 1);
        }
        let r1 = wram_rel(a1 as int);
        let r2 = wram_rel(a2 as int);
        assert(r1 != r2);
        g1.wram.lemma_index_distinct(r1, r2);
        let i1 = g1.wram.index_spec(r1);
        let i2 = g1.wram.index_spec(r2);
        assert(g2.wram.index_spec(r2) == i2);
        assert(post.wram.index_spec(r1) == i1 && post.wram.index_spec(r2) == i2);
        assert(post.wram.memory@[i1] == v1);
        assert(post.wram.memory@[i2] == v2);
    } else {
        assert(0xFF80 <= a1 < 0xFFFF);
        assert(0xFF80 <= a2 < 0xFFFF) by {
            assert(a2 == a1 - 1 || a2 == a1 + 1);
        }
        assert(post.hram.inner@[a1 as int - 0xFF80] == v1);
        assert(post.hram.inner@[a2 as int - 0xFF80] == v2);
    }
}

/// Addresses whose reads survive a peripheral cycle: ROM, VRAM and
/// stack RAM.  Immediate operands fetched from such addresses have
/// exact contracts.
pub open spec fn code_stable(addr: int) -> bool {
    addr < 0xA000 || stack_ram(addr)
}

/// A peripheral cycle does not change what a code-stable address reads.
proof fn lemma_cycle_preserves_code(pre: Bus, post: Bus, addr: int)
    requires
        Bus::cycle_frame(pre, post),
        code_stable(addr),
        0 <= addr < 0x10000,
    ensures
        post.read_spec(addr) == pre.read_spec(addr),
{    reveal(Bus::read_spec);
}

/// An eight-bit operand source: a register, the byte `HL` points at, or
/// an immediate.
#[derive(Debug, Clone, Copy, PartialEq, Eq, Structural)]
pub enum Src {
    R(R8),
    Imm,
}

/// The extra M-cycles fetching a source costs.
pub open spec fn src_cost(s: Src) -> int {
    match s {
        Src::R(R8::HLaddr) => 1,
        Src::R(_) => 0,
        Src::Imm => 1,
    }
}

/// The value a source denotes in a machine state.
pub open spec fn src_value(cpu: Cpu, bus: Bus, s: Src) -> int {
    match s {
        Src::R(R8::Reg(r)) => cpu.regs.get8_spec(r) as int,
        Src::R(R8::HLaddr) => bus.read_spec(hl_of(cpu.regs)),
        Src::Imm => bus.read_spec(cpu.regs.pc as int),
    }
}

/// The pointer an `r16mem` operand names in a pre-state.
pub open spec fn r16mem_target(r: Registers, m: R16mem) -> int {
    match m {
        R16mem::BC => r.b as int * 256 + r.c as int,
        R16mem::DE => r.d as int * 256 + r.e as int,
        R16mem::HLi => hl_of(r),
        R16mem::HLd => hl_of(r),
    }
}

/// The `HL` pointer value.
pub open spec fn hl_of(r: Registers) -> int {
    r.h as int * 256 + r.l as int
}

impl Cpu {
    /// Fetch an eight-bit source operand.
    fn fetch_src(&mut self, bus: &mut Bus, s: Src) -> (r: u8)
        requires
            old(bus).wf(),
        ensures
            final(bus).wf(),
            final(bus).mcycles as int == sat_add(old(bus).mcycles as int, src_cost(s)),
            r as int == src_value(*old(self), *old(bus), s),
            final(self).regs.pc == (if s == Src::Imm {
                old(self).regs.pc.wrapping_add(1)
            } else {
                old(self).regs.pc
            }),
            *final(self) == (Cpu {
                regs: (Registers { pc: final(self).regs.pc, ..old(self).regs }),
                ..*old(self)
            }),
            src_cost(s) == 0 ==> *final(bus) == *old(bus),
            src_cost(s) == 1 ==> Bus::cycle_frame(*old(bus), *final(bus)),
    {
        match s {
            Src::R(R8::Reg(r)) => self.regs.get8(r),
            Src::R(R8::HLaddr) => {
                let hl = self.regs.get16(Reg16::HL);
                bus.cycle_read(hl)
            }
            Src::Imm => self.cycle_read_pc(bus),
        }
    }

    /// Whether a branch condition currently holds.
    pub fn check_cond(&self, cond: Condition) -> (r: bool)
        ensures
            r == cond_holds(cond, self.regs.f),
    {
        match cond {
            Condition::NZ => !self.regs.f.z,
            Condition::Z => self.regs.f.z,
            Condition::NC => !self.regs.f.c,
            Condition::C => self.regs.f.c,
        }
    }

    /// `ADD A, src`.
    #[verifier::rlimit(100)]
    #[verifier::spinoff_prover]
    pub fn add(&mut self, bus: &mut Bus, src: Src)
        requires
            old(bus).wf(),
            old(self).opcode != Opcode::HALT,
        ensures
            final(bus).wf(),
            final(bus).mcycles as int == sat_add(old(bus).mcycles as int, src_cost(src) + 1),
            ({
                let v = src_value(*old(self), *old(bus), src);
                final(self).regs.a as int == add_spec(old(self).regs.a as int, v).0
                    && final(self).regs.f == add_spec(old(self).regs.a as int, v).1
            }),
            final(self).ime == old(self).ime && final(self).state == old(self).state && final(self).glitched == old(self).glitched,
            final(self).regs == (Registers {
                a: final(self).regs.a,
                f: final(self).regs.f,
                pc: final(self).regs.pc,
                ..old(self).regs
            }),
    {
        let v = self.fetch_src(bus, src);
        let a = self.regs.a;
        let sum: u16 = a as u16 + v as u16;
        self.regs.a = (sum % 256) as u8;
        self.regs.f = Flags {
            z: sum % 256 == 0,
            n: false,
            h: a % 16 + v % 16 > 15,
            c: sum > 255,
        };
        self.cycle_prefetch(bus);
    }

    /// `ADC A, src`.
    #[verifier::rlimit(100)]
    #[verifier::spinoff_prover]
    pub fn adc(&mut self, bus: &mut Bus, src: Src)
        requires
            old(bus).wf(),
            old(self).opcode != Opcode::HALT,
        ensures
            final(bus).wf(),
            final(bus).mcycles as int == sat_add(old(bus).mcycles as int, src_cost(src) + 1),
            ({
                let v = src_value(*old(self), *old(bus), src);
                final(self).regs.a as int == adc_spec(
                    old(self).regs.a as int,
                    v,
                    old(self).regs.f.c,
                ).0 && final(self).regs.f == adc_spec(old(self).regs.a as int, v, old(self).regs.f.c).1
            }),
            final(self).regs == (Registers {
                a: final(self).regs.a,
                f: final(self).regs.f,
                pc: final(self).regs.pc,
                ..old(self).regs
            }),
            final(self).ime == old(self).ime && final(self).state == old(self).state
                && final(self).glitched == old(self).glitched,
    {
        let v = self.fetch_src(bus, src);
        let a = self.regs.a;
        let ci: u16 = if self.regs.f.c {
            1
        } else {
            0
        };
        let sum: u16 = a as u16 + v as u16 + ci;
        self.regs.a = (sum % 256) as u8;
        self.regs.f = Flags {
            z: sum % 256 == 0,
            n: false,
            h: a as u16 % 16 + v as u16 % 16 + ci > 15,
            c: sum > 255,
        };
        self.cycle_prefetch(bus);
    }

    /// `SUB A, src`.
    #[verifier::rlimit(100)]
    #[verifier::spinoff_prover]
    pub fn sub(&mut self, bus: &mut Bus, src: Src)
        requires
            old(bus).wf(),
            old(self).opcode != Opcode::HALT,
        ensures
            final(bus).wf(),
            final(bus).mcycles as int == sat_add(old(bus).mcycles as int, src_cost(src) + 1),
            ({
                let v = src_value(*old(self), *old(bus), src);
                final(self).regs.a as int == sub_spec(old(self).regs.a as int, v).0 && final(self).regs.f == sub_spec(old(self).regs.a as int, v).1
            }),
            final(self).regs == (Registers {
                a: final(self).regs.a,
                f: final(self).regs.f,
                pc: final(self).regs.pc,
                ..old(self).regs
            }),
            final(self).ime == old(self).ime && final(self).state == old(self).state
                && final(self).glitched == old(self).glitched,
    {
        let v = self.fetch_src(bus, src);
        let a = self.regs.a;
        let d: u16 = (a as u16 + 256 - v as u16) % 256;
        proof {
            let di = a as int - v as int;
            if di < 0 {
                vstd::arithmetic::div_mod::lemma_small_mod((di + 256) as nat, 256);
            } else {
                vstd::arithmetic::div_mod::lemma_mod_add_multiples_vanish(di, 256);
                vstd::arithmetic::div_mod::lemma_small_mod(di as nat, 256);
            }
        }
        self.regs.a = d as u8;
        self.regs.f = Flags { z: d == 0, n: true, h: v % 16 > a % 16, c: v > a };
        self.cycle_prefetch(bus);
    }

    /// `SBC A, src`.
    #[verifier::rlimit(100)]
    #[verifier::spinoff_prover]
    pub fn sbc(&mut self, bus: &mut Bus, src: Src)
        requires
            old(bus).wf(),
            old(self).opcode != Opcode::HALT,
        ensures
            final(bus).wf(),
            final(bus).mcycles as int == sat_add(old(bus).mcycles as int, src_cost(src) + 1),
            ({
                let v = src_value(*old(self), *old(bus), src);
                final(self).regs.a as int == sbc_spec(
                    old(self).regs.a as int,
                    v,
                    old(self).regs.f.c,
                ).0 && final(self).regs.f == sbc_spec(old(self).regs.a as int, v, old(self).regs.f.c).1
            }),
            final(self).regs == (Registers {
                a: final(self).regs.a,
                f: final(self).regs.f,
                pc: final(self).regs.pc,
                ..old(self).regs
            }),
            final(self).ime == old(self).ime && final(self).state == old(self).state
                && final(self).glitched == old(self).glitched,
    {
        let v = self.fetch_src(bus, src);
        let a = self.regs.a;
        let ci: u16 = if self.regs.f.c {
            1
        } else {
            0
        };
        let d: u16 = (a as u16 + 512 - v as u16 - ci) % 256;
        proof {
            let di = a as int - v as int - ci as int;
            vstd::arithmetic::div_mod::lemma_mod_add_multiples_vanish(di + 256, 256);
            vstd::arithmetic::div_mod::lemma_mod_add_multiples_vanish(di, 256);
            if di < 0 {
                vstd::arithmetic::div_mod::lemma_small_mod((di + 256) as nat, 256);
            } else {
                vstd::arithmetic::div_mod::lemma_small_mod(di as nat, 256);
            }
        }
        self.regs.a = d as u8;
        self.regs.f = Flags {
            z: d == 0,
            n: true,
            h: v as u16 % 16 + ci > a as u16 % 16,
            c: v as u16 + ci > a as u16,
        };
        self.cycle_prefetch(bus);
    }

    /// `AND A, src`; the result is the bitwise AND.
    pub fn and(&mut self, bus: &mut Bus, src: Src)
        requires
            old(bus).wf(),
            old(self).opcode != Opcode::HALT,
        ensures
            final(bus).wf(),
            final(bus).mcycles as int == sat_add(old(bus).mcycles as int, src_cost(src) + 1),
            final(self).regs.a == (old(self).regs.a & (src_value(
                *old(self),
                *old(bus),
                src,
            ) as u8)),
            final(self).regs.f == and_flags(final(self).regs.a as int),
            final(self).regs == (Registers {
                a: final(self).regs.a,
                f: final(self).regs.f,
                pc: final(self).regs.pc,
                ..old(self).regs
            }),
            final(self).ime == old(self).ime && final(self).state == old(self).state
                && final(self).glitched == old(self).glitched,
    {
        let v = self.fetch_src(bus, src);
        let r = self.regs.a & v;
        self.regs.a = r;
        self.regs.f = Flags { z: r == 0, n: false, h: true, c: false };
        self.cycle_prefetch(bus);
    }

    /// `XOR A, src`.
    pub fn xor(&mut self, bus: &mut Bus, src: Src)
        requires
            old(bus).wf(),
            old(self).opcode != Opcode::HALT,
        ensures
            final(bus).wf(),
            final(bus).mcycles as int == sat_add(old(bus).mcycles as int, src_cost(src) + 1),
            final(self).regs.a == (old(self).regs.a ^ (src_value(
                *old(self),
                *old(bus),
                src,
            ) as u8)),
            final(self).regs.f == logic_flags(final(self).regs.a as int),
            final(self).regs == (Registers {
                a: final(self).regs.a,
                f: final(self).regs.f,
                pc: final(self).regs.pc,
                ..old(self).regs
            }),
            final(self).ime == old(self).ime && final(self).state == old(self).state
                && final(self).glitched == old(self).glitched,
    {
        let v = self.fetch_src(bus, src);
        let r = self.regs.a ^ v;
        self.regs.a = r;
        self.regs.f = Flags { z: r == 0, n: false, h: false, c: false };
        self.cycle_prefetch(bus);
    }

    /// `OR A, src`.
    pub fn or(&mut self, bus: &mut Bus, src: Src)
        requires
            old(bus).wf(),
            old(self).opcode != Opcode::HALT,
        ensures
            final(bus).wf(),
            final(bus).mcycles as int == sat_add(old(bus).mcycles as int, src_cost(src) + 1),
            final(self).regs.a == (old(self).regs.a | (src_value(
                *old(self),
                *old(bus),
                src,
            ) as u8)),
            final(self).regs.f == logic_flags(final(self).regs.a as int),
            final(self).regs == (Registers {
                a: final(self).regs.a,
                f: final(self).regs.f,
                pc: final(self).regs.pc,
                ..old(self).regs
            }),
            final(self).ime == old(self).ime && final(self).state == old(self).state
                && final(self).glitched == old(self).glitched,
    {
        let v = self.fetch_src(bus, src);
        let r = self.regs.a | v;
        self.regs.a = r;
        self.regs.f = Flags { z: r == 0, n: false, h: false, c: false };
        self.cycle_prefetch(bus);
    }

    /// `CP A, src`: a subtraction that only sets the flags.
    pub fn cp(&mut self, bus: &mut Bus, src: Src)
        requires
            old(bus).wf(),
            old(self).opcode != Opcode::HALT,
        ensures
            final(bus).wf(),
            final(bus).mcycles as int == sat_add(old(bus).mcycles as int, src_cost(src) + 1),
            final(self).regs.a == old(self).regs.a,
            final(self).regs.f == sub_spec(
                old(self).regs.a as int,
                src_value(*old(self), *old(bus), src),
            ).1,
            final(self).regs == (Registers {
                f: final(self).regs.f,
                pc: final(self).regs.pc,
                ..old(self).regs
            }),
            final(self).ime == old(self).ime && final(self).state == old(self).state
                && final(self).glitched == old(self).glitched,
    {
        let v = self.fetch_src(bus, src);
        let a = self.regs.a;
        self.regs.f = Flags { z: a == v, n: true, h: v % 16 > a % 16, c: v > a };
        self.cycle_prefetch(bus);
    }

    /// `INC r8` / `DEC r8` on a register or `[HL]`.
    #[verifier::rlimit(100)]
    #[verifier::spinoff_prover]
    pub fn inc(&mut self, bus: &mut Bus, r: R8)
        requires
            old(bus).wf(),
            old(self).opcode != Opcode::HALT,
        ensures
            final(bus).wf(),
            final(bus).mcycles as int == sat_add(
                old(bus).mcycles as int,
                (if r is HLaddr {
                    3int
                } else {
                    1
                }),
            ),
            ({
                let v = src_value(*old(self), *old(bus), Src::R(r));
                &&& final(self).regs.f == inc_spec(v, old(self).regs.f).1
                &&& (r matches R8::Reg(reg) ==> final(self).regs.get8_spec(reg) as int == inc_spec(
                    v,
                    old(self).regs.f,
                ).0 && (forall|o: Reg8|
                    o != reg ==> final(self).regs.get8_spec(o) == old(self).regs.get8_spec(o)))
                &&& (r is HLaddr && stack_ram(hl_of(old(self).regs)) ==> final(bus).read_spec(
                    hl_of(old(self).regs),
                ) == inc_spec(v, old(self).regs.f).0)
                &&& (r is HLaddr ==> final(self).regs == (Registers {
                    f: final(self).regs.f,
                    pc: final(self).regs.pc,
                    ..old(self).regs
                }))
            }),
            final(self).regs.sp == old(self).regs.sp,
            final(self).ime == old(self).ime && final(self).state == old(self).state
                && final(self).glitched == old(self).glitched,
    {
        let v = self.fetch_src(bus, Src::R(r));
        let res = v.wrapping_add(1);
        self.regs.f = Flags { z: res == 0, n: false, h: v % 16 == 15, c: self.regs.f.c };
        let ghost gf = *self;
        self.write_r8_op(bus, r, res);
        let ghost cw = *self;
        let ghost ga = *bus;
        self.cycle_prefetch(bus);
        proof {
            if r is HLaddr && stack_ram(hl_of(old(self).regs)) {
                lemma_cycle_preserves_read(ga, *bus, hl_of(old(self).regs));
            }
            match r {
                R8::Reg(reg) => {
                    assert forall|o: Reg8| o != reg implies self.regs.get8_spec(o) == old(self).regs.get8_spec(o) by {
                        assert(cw.regs.get8_spec(o) == gf.regs.get8_spec(o));
                        assert(self.regs.get8_spec(o) == cw.regs.get8_spec(o));
                        assert(gf.regs.get8_spec(o) == old(self).regs.get8_spec(o));
                    }
                }
                _ => {}
            }
        }
    }

    #[verifier::rlimit(100)]
    #[verifier::spinoff_prover]
    pub fn dec(&mut self, bus: &mut Bus, r: R8)
        requires
            old(bus).wf(),
            old(self).opcode != Opcode::HALT,
        ensures
            final(bus).wf(),
            final(bus).mcycles as int == sat_add(
                old(bus).mcycles as int,
                (if r is HLaddr {
                    3int
                } else {
                    1
                }),
            ),
            ({
                let v = src_value(*old(self), *old(bus), Src::R(r));
                &&& final(self).regs.f == dec_spec(v, old(self).regs.f).1
                &&& (r matches R8::Reg(reg) ==> final(self).regs.get8_spec(reg) as int == dec_spec(
                    v,
                    old(self).regs.f,
                ).0 && (forall|o: Reg8|
                    o != reg ==> final(self).regs.get8_spec(o) == old(self).regs.get8_spec(o)))
                &&& (r is HLaddr && stack_ram(hl_of(old(self).regs)) ==> final(bus).read_spec(
                    hl_of(old(self).regs),
                ) == dec_spec(v, old(self).regs.f).0)
                &&& (r is HLaddr ==> final(self).regs == (Registers {
                    f: final(self).regs.f,
                    pc: final(self).regs.pc,
                    ..old(self).regs
                }))
            }),
            final(self).regs.sp == old(self).regs.sp,
            final(self).ime == old(self).ime && final(self).state == old(self).state
                && final(self).glitched == old(self).glitched,
    {
        let v = self.fetch_src(bus, Src::R(r));
        let res = v.wrapping_sub(1);
        self.regs.f = Flags { z: res == 0, n: true, h: v % 16 == 0, c: self.regs.f.c };
        let ghost gf = *self;
        self.write_r8_op(bus, r, res);
        let ghost cw = *self;
        let ghost ga = *bus;
        self.cycle_prefetch(bus);
        proof {
            if r is HLaddr && stack_ram(hl_of(old(self).regs)) {
                lemma_cycle_preserves_read(ga, *bus, hl_of(old(self).regs));
            }
            match r {
                R8::Reg(reg) => {
                    assert forall|o: Reg8| o != reg implies self.regs.get8_spec(o) == old(self).regs.get8_spec(o) by {
                        assert(cw.regs.get8_spec(o) == gf.regs.get8_spec(o));
                        assert(self.regs.get8_spec(o) == cw.regs.get8_spec(o));
                        assert(gf.regs.get8_spec(o) == old(self).regs.get8_spec(o));
                    }
                }
                _ => {}
            }
        }
    }

    /// `JR` / `JR cond`: relative jump by a signed offset.  Taken, it
    /// lands the next instruction at the offset target; not taken, the
    /// check costs nothing extra and execution falls through.
    pub fn jr(&mut self, bus: &mut Bus, cond: Option<Condition>)
        requires
            old(bus).wf(),
            old(self).opcode != Opcode::HALT,
        ensures
            final(bus).wf(),
            ({
                let taken = match cond {
                    Some(c) => cond_holds(c, old(self).regs.f),
                    None => true,
                };
                let off = src_value(*old(self), *old(bus), Src::Imm);
                let fallthrough = old(self).regs.pc.wrapping_add(1);
                let dest = if taken {
                    ((fallthrough as int + alu::signed8(off)) % 0x10000 + 0x10000) % 0x10000
                } else {
                    fallthrough as int
                };
                &&& final(bus).mcycles as int == sat_add(
                    old(bus).mcycles as int,
                    if taken {
                        3int
                    } else {
                        2
                    },
                )
                &&& final(self).instr_addr as int == dest
                &&& final(self).regs.f == old(self).regs.f
            }),
            final(self).ime == old(self).ime && final(self).state == old(self).state
                && final(self).glitched == old(self).glitched,
    {
        let off = self.fetch_src(bus, Src::Imm);
        let taken = match cond {
            Some(c) => self.check_cond(c),
            None => true,
        };
        if taken {
            let soff: u16 = if off < 128 {
                off as u16
            } else {
                off as u16 + 0xFF00
            };
            self.regs.pc = self.regs.pc.wrapping_add(soff);
            bus.cycle();
        }
        proof {
            let offi = src_value(*old(self), *old(bus), Src::Imm);
            let ft = old(self).regs.pc.wrapping_add(1) as int;
            if taken {
                assert(self.regs.pc as int == ((ft + alu::signed8(offi)) % 0x10000 + 0x10000)
                    % 0x10000) by {
                    let so = if offi < 128 {
                        offi
                    } else {
                        offi + 0xFF00
                    };
                    assert(self.regs.pc as int == (ft + so) % 0x10000);
                    if offi < 128 {
                        vstd::arithmetic::div_mod::lemma_mod_twice(ft + offi, 0x10000);
                        vstd::arithmetic::div_mod::lemma_small_mod(
                            ((ft + offi) % 0x10000) as nat,
                            0x10000,
                        );
                    } else {
                        assert(so == offi - 256 + 0x10000);
                        assert((ft + so) % 0x10000 == (ft + (offi - 256)) % 0x10000) by {
                            vstd::arithmetic::div_mod::lemma_mod_add_multiples_vanish(
                                ft + (offi - 256),
                                0x10000,
                            );
                        }
                        vstd::arithmetic::div_mod::lemma_mod_twice(ft + (offi - 256), 0x10000);
                        vstd::arithmetic::div_mod::lemma_small_mod(
                            ((ft + (offi - 256)) % 0x10000) as nat,
                            0x10000,
                        );
                    }
                }
            }
        }
        self.cycle_prefetch(bus);
    }

    /// `JP` / `JP cond` to an immediate address.
    pub fn jp(&mut self, bus: &mut Bus, cond: Option<Condition>)
        requires
            old(bus).wf(),
            old(self).opcode != Opcode::HALT,
        ensures
            final(bus).wf(),
            final(bus).mcycles as int == sat_add(
                old(bus).mcycles as int,
                (if (match cond {
                    Some(c) => cond_holds(c, old(self).regs.f),
                    None => true,
                }) {
                    4int
                } else {
                    3
                }),
            ),
            final(self).regs.f == old(self).regs.f,
            ({
                let taken = match cond {
                    Some(c) => cond_holds(c, old(self).regs.f),
                    None => true,
                };
                &&& (taken && code_stable(old(self).regs.pc.wrapping_add(1) as int) ==> final(self).instr_addr as int == old(bus).read_spec(old(self).regs.pc as int) + 256 * old(bus).read_spec(old(self).regs.pc.wrapping_add(1) as int))
                &&& (!taken ==> final(self).instr_addr == old(self).regs.pc.wrapping_add(2))
            }),
            final(self).regs == (Registers {
                pc: final(self).regs.pc,
                ..old(self).regs
            }),
            final(self).ime == old(self).ime && final(self).state == old(self).state
                && final(self).glitched == old(self).glitched,
    {
        let addr = self.fetch_imm16(bus);
        let taken = match cond {
            Some(c) => self.check_cond(c),
            None => true,
        };
        if taken {
            self.regs.pc = addr;
            bus.cycle();
        }
        self.cycle_prefetch(bus);
    }

    /// Fetch a little-endian immediate word.
    fn fetch_imm16(&mut self, bus: &mut Bus) -> (r: u16)
        requires
            old(bus).wf(),
        ensures
            final(bus).wf(),
            final(bus).mcycles as int == sat_add(old(bus).mcycles as int, 2),
            final(self).regs.pc == old(self).regs.pc.wrapping_add(2),
            *final(self) == (Cpu {
                regs: (Registers { pc: final(self).regs.pc, ..old(self).regs }),
                ..*old(self)
            }),
            r as int % 256 == old(bus).read_spec(old(self).regs.pc as int),
            code_stable(old(self).regs.pc.wrapping_add(1) as int) ==> r as int / 256 == old(bus).read_spec(old(self).regs.pc.wrapping_add(1) as int),
            final(bus).wram == old(bus).wram,
            final(bus).hram == old(bus).hram,
            final(bus).cartridge == old(bus).cartridge,
            final(bus).boot_rom == old(bus).boot_rom,
    {
        let ghost pre = *old(bus);
        let lo = self.cycle_read_pc(bus);
        let ghost s1 = *bus;
        let ghost p1 = old(self).regs.pc.wrapping_add(1);
        let hi = self.cycle_read_pc(bus);
        proof {
            if code_stable(p1 as int) {
                lemma_cycle_preserves_code(pre, s1, p1 as int);
            }
        }
        (hi as u16) * 256 + (lo as u16)
    }

    /// `RET` / `RET cond` / `RETI`.
    pub fn ret(&mut self, bus: &mut Bus, cond: Option<Condition>)
        requires
            old(bus).wf(),
            old(self).opcode != Opcode::HALT,
        ensures
            final(bus).wf(),
            final(bus).mcycles as int == sat_add(
                old(bus).mcycles as int,
                (match cond {
                    Some(c) => if cond_holds(c, old(self).regs.f) {
                        5int
                    } else {
                        2
                    },
                    None => 4,
                }),
            ),
            ({
                let taken = match cond {
                    Some(c) => cond_holds(c, old(self).regs.f),
                    None => true,
                };
                let sp = old(self).regs.sp;
                &&& (taken ==> final(self).regs.sp == sp.wrapping_add(2))
                &&& (!taken ==> final(self).regs.sp == sp && final(self).instr_addr == old(self).regs.pc)
                &&& (taken && stack_ram(sp as int) && stack_ram(sp.wrapping_add(1) as int)
                    ==> final(self).instr_addr as int == old(bus).read_spec(sp as int) + 256 * old(bus).read_spec(sp.wrapping_add(1) as int))
            }),
            final(self).regs == (Registers {
                sp: final(self).regs.sp,
                pc: final(self).regs.pc,
                ..old(self).regs
            }),
            final(self).ime == old(self).ime && final(self).state == old(self).state
                && final(self).glitched == old(self).glitched,
    {
        let ghost pre = *old(bus);
        if cond.is_some() {
            bus.cycle();
        }
        let ghost g1 = *bus;
        let taken = match cond {
            Some(c) => self.check_cond(c),
            None => true,
        };
        if taken {
            proof {
                let sp = self.regs.sp;
                if stack_ram(sp as int) && stack_ram(sp.wrapping_add(1) as int) {
                    lemma_cycle_preserves_read(pre, g1, sp as int);
                    lemma_cycle_preserves_read(pre, g1, sp.wrapping_add(1) as int);
                }
            }
            let addr = self.cycle_pop16(bus);
            self.regs.pc = addr;
            bus.cycle();
        }
        self.cycle_prefetch(bus);
    }

    /// `RETI`: return and enable interrupts at once.
    pub fn reti(&mut self, bus: &mut Bus)
        requires
            old(bus).wf(),
            old(self).opcode != Opcode::HALT,
        ensures
            final(bus).wf(),
            final(bus).mcycles as int == sat_add(old(bus).mcycles as int, 4),
            final(self).ime,
            final(self).regs.sp == old(self).regs.sp.wrapping_add(2),
            stack_ram(old(self).regs.sp as int) && stack_ram(
                old(self).regs.sp.wrapping_add(1) as int,
            ) ==> final(self).instr_addr as int == old(bus).read_spec(old(self).regs.sp as int)
                + 256 * old(bus).read_spec(old(self).regs.sp.wrapping_add(1) as int),
            final(self).regs == (Registers {
                sp: final(self).regs.sp,
                pc: final(self).regs.pc,
                ..old(self).regs
            }),
            final(self).state == old(self).state && final(self).glitched == old(self).glitched,
    {
        self.ime = true;
        let addr = self.cycle_pop16(bus);
        self.regs.pc = addr;
        bus.cycle();
        self.cycle_prefetch(bus);
    }

    /// `CALL` / `CALL cond` / `RST`: push the return address and jump.
    pub fn call_to(&mut self, bus: &mut Bus, addr: u16, taken: bool, extra: u8)
        requires
            old(bus).wf(),
            old(self).opcode != Opcode::HALT,
        ensures
            final(bus).wf(),
            final(bus).mcycles as int == sat_add(
                old(bus).mcycles as int,
                (if taken {
                    4int
                } else {
                    1
                }),
            ),
            taken ==> final(self).instr_addr == addr && final(self).regs.sp == old(self).regs.sp.wrapping_sub(2),
            !taken ==> final(self).regs.sp == old(self).regs.sp && final(self).instr_addr == old(self).regs.pc,
            taken && stack_ram(old(self).regs.sp.wrapping_sub(1) as int) && stack_ram(
                old(self).regs.sp.wrapping_sub(2) as int,
            ) ==> final(bus).read_spec(old(self).regs.sp.wrapping_sub(1) as int) == old(self).regs.pc as int / 256 && final(bus).read_spec(
                old(self).regs.sp.wrapping_sub(2) as int,
            ) == old(self).regs.pc as int % 256,
            final(self).regs == (Registers {
                sp: final(self).regs.sp,
                pc: final(self).regs.pc,
                ..old(self).regs
            }),
            final(self).ime == old(self).ime && final(self).state == old(self).state
                && final(self).glitched == old(self).glitched,
    {
        if taken {
            let ret = self.regs.pc;
            self.cycle_push16(bus, ret);
            let ghost ga = *bus;
            self.regs.pc = addr;
            self.cycle_prefetch(bus);
            proof {
                let a1 = old(self).regs.sp.wrapping_sub(1) as int;
                let a2 = old(self).regs.sp.wrapping_sub(2) as int;
                if stack_ram(a1) && stack_ram(a2) {
                    lemma_cycle_preserves_read(ga, *bus, a1);
                    lemma_cycle_preserves_read(ga, *bus, a2);
                }
            }
        } else {
            self.cycle_prefetch(bus);
        }
    }

    /// `PUSH r16stk`: a push restores through a later pop, except that
    /// `AF` masks its low nibble.
    pub fn push(&mut self, bus: &mut Bus, r16stk: Reg16)
        requires
            old(bus).wf(),
            old(self).opcode != Opcode::HALT,
        ensures
            final(bus).wf(),
            final(bus).mcycles as int == sat_add(old(bus).mcycles as int, 4),
            final(self).regs.sp == old(self).regs.sp.wrapping_sub(2),
            stack_ram(old(self).regs.sp.wrapping_sub(1) as int) && stack_ram(
                old(self).regs.sp.wrapping_sub(2) as int,
            ) ==> final(bus).read_spec(old(self).regs.sp.wrapping_sub(1) as int) == old(self).regs.get16_spec(r16stk) / 256 && final(bus).read_spec(
                old(self).regs.sp.wrapping_sub(2) as int,
            ) == old(self).regs.get16_spec(r16stk) % 256,
            final(self).ime == old(self).ime && final(self).state == old(self).state
                && final(self).glitched == old(self).glitched,
    {
        let data = self.regs.get16(r16stk);
        self.cycle_push16(bus, data);
        let ghost g = *bus;
        proof {
            assert(data as int / 256 == old(self).regs.get16_spec(r16stk) / 256);
            assert(data as int % 256 == old(self).regs.get16_spec(r16stk) % 256);
        }
        self.cycle_prefetch(bus);
        proof {
            let a1 = old(self).regs.sp.wrapping_sub(1) as int;
            let a2 = old(self).regs.sp.wrapping_sub(2) as int;
            if stack_ram(a1) && stack_ram(a2) {
                lemma_cycle_preserves_read(g, *bus, a1);
                lemma_cycle_preserves_read(g, *bus, a2);
            }
        }
    }

    /// `POP r16stk`: load a pair from the stack; a pop into `AF` masks
    /// the low flag nibble.
    pub fn pop(&mut self, bus: &mut Bus, r16stk: Reg16)
        requires
            old(bus).wf(),
            old(self).opcode != Opcode::HALT,
            r16stk != Reg16::SP,
        ensures
            final(bus).wf(),
            final(bus).mcycles as int == sat_add(old(bus).mcycles as int, 3),
            final(self).regs.sp == old(self).regs.sp.wrapping_add(2),
            r16stk != Reg16::AF && r16stk != Reg16::SP && stack_ram(
                old(self).regs.sp.wrapping_add(1) as int,
            ) ==> final(self).regs.get16_spec(r16stk) == old(bus).read_spec(
                old(self).regs.sp as int,
            ) + 256 * old(bus).read_spec(old(self).regs.sp.wrapping_add(1) as int),
            r16stk == Reg16::AF && stack_ram(old(self).regs.sp.wrapping_add(1) as int) ==> final(self).regs.a as int == old(bus).read_spec(old(self).regs.sp.wrapping_add(1) as int)
                && final(self).regs.f == crate::regs::flags_of_byte(
                old(bus).read_spec(old(self).regs.sp as int),
            ),
            final(self).ime == old(self).ime && final(self).state == old(self).state
                && final(self).glitched == old(self).glitched,
    {
        let ghost pre = *old(bus);
        let ghost sp = old(self).regs.sp;
        let data = self.cycle_pop16(bus);
        proof {
            if stack_ram(sp.wrapping_add(1) as int) {
                lemma_read_spec_in_byte_range(pre, sp as int);
                lemma_read_spec_in_byte_range(pre, sp.wrapping_add(1) as int);
                let lo = pre.read_spec(sp as int);
                let hi = pre.read_spec(sp.wrapping_add(1) as int);
                assert(data as int == lo + 256 * hi ==> data as int / 256 == hi && data as int
                    % 256 == lo) by (nonlinear_arith)
                    requires
                        0 <= lo < 256,
                        0 <= hi < 256,
                ;
            }
        }
        self.regs.set16(r16stk, data);
        self.cycle_prefetch(bus);
    }

    /// `HALT`: idle until an interrupt is pending.  With IME clear and an
    /// interrupt already pending, the CPU does not halt and the next
    /// fetch fails to step `PC`: the HALT bug.
    pub fn halt(&mut self, bus: &mut Bus)
        requires
            old(bus).wf(),
        ensures
            final(bus).wf(),
            final(bus).mcycles as int == sat_add(old(bus).mcycles as int, 1),
            ({
                let pending = highest_priority_spec(
                    if_and(old(bus).iflags, old(bus).ie),
                ) is Some;
                final(self).state == (if !old(self).ime && pending {
                    old(self).state
                } else {
                    CPUState::Halt(0u32)
                })
            }),
            final(self).opcode == decode_of(old(bus).read_spec(old(self).regs.pc as int)),
            final(self).instr_addr == old(self).regs.pc,
            final(self).regs == (Registers {
                pc: final(self).regs.pc,
                ..old(self).regs
            }),
            final(self).ime == old(self).ime && final(self).glitched == old(self).glitched,
    {
        let pending = bus.sample_interrupts().has_interrupt();
        if !(!self.ime && pending) {
            self.state.set_halt();
        }
        self.cycle_prefetch(bus);
    }

    /// `DI`: interrupts off at once.
    pub fn di(&mut self, bus: &mut Bus)
        requires
            old(bus).wf(),
            old(self).opcode != Opcode::HALT,
        ensures
            final(bus).wf(),
            final(bus).mcycles as int == sat_add(old(bus).mcycles as int, 1),
            !final(self).ime,
            final(self).regs == (Registers { pc: final(self).regs.pc, ..old(self).regs }),
            final(self).rqst == old(self).rqst,
            final(self).state == old(self).state && final(self).glitched == old(self).glitched,
    {
        self.ime = false;
        self.cycle_prefetch(bus);
    }

    /// `EI`: interrupts on only after the next instruction's prefetch;
    /// raising IME after the sample implements the one-instruction delay.
    pub fn ei(&mut self, bus: &mut Bus)
        requires
            old(bus).wf(),
            old(self).opcode != Opcode::HALT,
        ensures
            final(bus).wf(),
            final(bus).mcycles as int == sat_add(old(bus).mcycles as int, 1),
            final(self).ime,
            final(self).rqst == (if old(self).ime {
                if_and(final(bus).iflags, final(bus).ie)
            } else {
                old(self).rqst
            }),
            final(self).regs == (Registers { pc: final(self).regs.pc, ..old(self).regs }),
            final(self).state == old(self).state && final(self).glitched == old(self).glitched,
    {
        self.cycle_prefetch(bus);
        self.ime = true;
    }

    /// Begin a CGB speed switch: disarm the switch and halt for its
    /// 2050-cycle settling period.
    fn start_speed_switch(&mut self, bus: &mut Bus)
        ensures
            final(self).state == CPUState::Halt(2050),
            *final(self) == (Cpu { state: CPUState::Halt(2050), ..*old(self) }),
            *final(bus) == (Bus { switch_armed: false, ..*old(bus) }),
    {
        self.state.set_halt_timer(2050);
        bus.switch_armed = false;
    }

    /// `STOP`: the full decision matrix over held input, pending
    /// interrupts and the armed speed switch.  The undefined corner
    /// (armed switch, pending interrupt, IME clear) stops the core with
    /// the glitch signal.
    pub fn stop(&mut self, bus: &mut Bus)
        requires
            old(bus).wf(),
        ensures
            final(bus).wf(),
            ({
                let held = !crate::joypad::p1_line_high(old(bus).joypad);
                let pending = highest_priority_spec(
                    if_and(old(bus).iflags, old(bus).ie),
                ) is Some;
                let armed = old(bus).switch_armed;
                let glitch = !held && armed && pending && !old(self).ime;
                let reset_div = !held && !glitch;
                let one_byte = pending && !glitch;
                &&& (glitch ==> *final(self) == (Cpu { glitched: true, ..*old(self) }) && *final(bus) == *old(bus))
                &&& (!glitch ==> {
                    &&& final(bus).mcycles as int == sat_add(old(bus).mcycles as int, 2)
                    &&& final(self).glitched == old(self).glitched
                    &&& final(self).ime == old(self).ime
                    &&& final(self).instr_addr == (if one_byte {
                        old(self).regs.pc
                    } else {
                        old(self).regs.pc.wrapping_add(1)
                    })
                    &&& final(self).state == (if held {
                        if pending {
                            old(self).state
                        } else {
                            CPUState::Halt(0u32)
                        }
                    } else if armed {
                        CPUState::Halt(2050u32)
                    } else {
                        CPUState::Stop
                    })
                    &&& final(bus).switch_armed == (if !held && armed {
                        false
                    } else {
                        old(bus).switch_armed
                    })
                    &&& final(bus).timer == (if reset_div {
                        old(bus).timer.write_div_spec().step_spec().step_spec()
                    } else {
                        old(bus).timer.step_spec().step_spec()
                    })
                })
                &&& final(self).regs == (Registers {
                    pc: final(self).regs.pc,
                    ..old(self).regs
                })
            }),
    {
        let held = bus.joypad.any_selected_pressed();
        let pending = bus.sample_interrupts().has_interrupt();
        let armed = bus.switch_armed;
        if held {
            if !pending {
                self.regs.inc_pc();
                self.state.set_halt();
            }
        } else if !armed {
            if !pending {
                self.regs.inc_pc();
            }
            self.state.set_stop();
            bus.write(0xFF04, 0);
        } else if pending {
            if self.ime {
                bus.write(0xFF04, 0);
                self.start_speed_switch(bus);
            } else {
                self.glitched = true;
                return ;
            }
        } else {
            self.regs.inc_pc();
            bus.write(0xFF04, 0);
            self.start_speed_switch(bus);
        }
        bus.cycle();
        self.cycle_prefetch(bus);
    }

    /// The five-cycle interrupt dispatch: undo the prefetched opcode,
    /// push the return address, re-sample the request lines at the last
    /// push cycle to pick the vector (a withdrawn request falls to
    /// `$0000`), acknowledge it and prefetch from the handler.
    #[verifier::rlimit(100)]
    #[verifier::spinoff_prover]
    pub fn service_interrupt(&mut self, bus: &mut Bus)
        requires
            old(bus).wf(),
        ensures
            final(bus).wf(),
            final(bus).mcycles as int == sat_add(old(bus).mcycles as int, 5),
            !final(self).ime,
            final(self).state == CPUState::Normal,
            final(self).rqst == InterruptFlags::empty_spec(),
            final(self).regs.sp == old(self).regs.sp.wrapping_sub(2),
            final(self).instr_addr as int == 0x40 || final(self).instr_addr as int == 0x48
                || final(self).instr_addr as int == 0x50 || final(self).instr_addr as int == 0x58
                || final(self).instr_addr as int == 0x60 || final(self).instr_addr as int == 0,
            exists|pend: InterruptFlags| #[trigger] dispatch_pick(
                pend,
                final(self).instr_addr as int,
            ),
            final(self).regs.pc == final(self).instr_addr.wrapping_add(1),
            final(self).regs == (Registers {
                sp: final(self).regs.sp,
                pc: final(self).regs.pc,
                ..old(self).regs
            }),
            final(self).glitched == old(self).glitched,
            stack_ram(old(self).regs.sp.wrapping_sub(1) as int) && stack_ram(
                old(self).regs.sp.wrapping_sub(2) as int,
            ) ==> final(bus).read_spec(old(self).regs.sp.wrapping_sub(1) as int) == old(self).regs.pc.wrapping_sub(1) as int / 256 && final(bus).read_spec(
                old(self).regs.sp.wrapping_sub(2) as int,
            ) == old(self).regs.pc.wrapping_sub(1) as int % 256,
    {
        let ghost pre = *old(bus);
        self.rqst = InterruptFlags::new();
        self.state.reset();
        self.ime = false;
        self.regs.dec_pc();
        let ret = self.regs.pc;
        bus.cycle();
        bus.cycle();
        let ghost g1 = *bus;
        self.regs.sp = self.regs.sp.wrapping_sub(1);
        let a1 = self.regs.sp;
        let hi = (ret / 256) as u8;
        let lo = (ret % 256) as u8;
        bus.cycle_write(a1, hi);
        let ghost g2 = *bus;
        self.regs.sp = self.regs.sp.wrapping_sub(1);
        let a2 = self.regs.sp;
        bus.cycle_write(a2, lo);
        let ghost g3 = *bus;
        let pend = bus.sample_interrupts();
        match pend.highest_priority() {
            Some(itr) => {
                self.regs.pc = itr.handler_address();
                bus.iflags.clear_source(itr);
            }
            None => {
                self.regs.pc = 0;
            }
        }

        let pc = self.regs.pc;
        let b = bus.cycle_read(pc);
        self.regs.inc_pc();
        self.opcode = Opcode::lookup(b);
        self.instr_addr = pc;
        proof {
            assert(dispatch_pick(pend, self.instr_addr as int));
            if stack_ram(a1 as int) && stack_ram(a2 as int) {
                lemma_two_stack_writes(g1, g2, g3, a1, hi, a2, lo);
                lemma_cycle_preserves_read(g3, *bus, a1 as int);
                lemma_cycle_preserves_read(g3, *bus, a2 as int);
            }
        }
    }

    /// `LD dst, src` over eight-bit operands.
    pub fn ld8(&mut self, bus: &mut Bus, dst: R8, src: Src)
        requires
            old(bus).wf(),
            old(self).opcode != Opcode::HALT,
        ensures
            final(bus).wf(),
            final(bus).mcycles as int == sat_add(
                old(bus).mcycles as int,
                src_cost(src) + (if dst is HLaddr {
                    1int
                } else {
                    0
                }) + 1,
            ),
            dst matches R8::Reg(reg) ==> final(self).regs.get8_spec(reg) as int == src_value(
                *old(self),
                *old(bus),
                src,
            ) && (forall|o: Reg8|
                o != reg ==> final(self).regs.get8_spec(o) == old(self).regs.get8_spec(o)),
            dst is HLaddr && stack_ram(hl_of(old(self).regs)) ==> final(bus).read_spec(
                hl_of(old(self).regs),
            ) == src_value(*old(self), *old(bus), src),
            dst is HLaddr ==> final(self).regs == (Registers {
                pc: final(self).regs.pc,
                ..old(self).regs
            }),
            final(self).regs.f == old(self).regs.f,
            final(self).regs.sp == old(self).regs.sp,
            final(self).ime == old(self).ime && final(self).state == old(self).state
                && final(self).glitched == old(self).glitched,
    {
        let v = self.fetch_src(bus, src);
        let ghost gf = *self;
        self.write_r8_op(bus, dst, v);
        let ghost cw = *self;
        let ghost ga = *bus;
        self.cycle_prefetch(bus);
        proof {
            if dst is HLaddr && stack_ram(hl_of(old(self).regs)) {
                lemma_cycle_preserves_read(ga, *bus, hl_of(old(self).regs));
            }
            match dst {
                R8::Reg(reg) => {
                    assert forall|o: Reg8| o != reg implies self.regs.get8_spec(o) == old(self).regs.get8_spec(o) by {
                        assert(cw.regs.get8_spec(o) == gf.regs.get8_spec(o));
                        assert(self.regs.get8_spec(o) == cw.regs.get8_spec(o));
                        assert(gf.regs.get8_spec(o) == old(self).regs.get8_spec(o));
                    }
                }
                _ => {}
            }
        }
    }
}


impl Cpu {
    /// The accumulator rotates (`RLCA`, `RRCA`, `RLA`, `RRA`): one
    /// cycle, `Z` always cleared.
    pub fn rlca(&mut self, bus: &mut Bus)
        requires
            old(bus).wf(),
            old(self).opcode != Opcode::HALT,
        ensures
            final(bus).wf(),
            final(bus).mcycles as int == sat_add(old(bus).mcycles as int, 1),
            final(self).regs.a as int == rlc_spec(old(self).regs.a as int).0,
            final(self).regs.f == (Flags { z: false, ..rlc_spec(old(self).regs.a as int).1 }),
            final(self).regs == (Registers {
                a: final(self).regs.a,
                f: final(self).regs.f,
                pc: final(self).regs.pc,
                ..old(self).regs
            }),
            final(self).ime == old(self).ime && final(self).state == old(self).state
                && final(self).glitched == old(self).glitched,
    {
        let v = self.regs.a;
        self.regs.a = v % 128 * 2 + v / 128;
        self.regs.f = Flags { z: false, n: false, h: false, c: v >= 128 };
        proof {
            assert(v as int % 128 * 2 == v as int * 2 % 256) by (nonlinear_arith);
        }
        self.cycle_prefetch(bus);
    }

    pub fn rrca(&mut self, bus: &mut Bus)
        requires
            old(bus).wf(),
            old(self).opcode != Opcode::HALT,
        ensures
            final(bus).wf(),
            final(bus).mcycles as int == sat_add(old(bus).mcycles as int, 1),
            final(self).regs.a as int == rrc_spec(old(self).regs.a as int).0,
            final(self).regs.f == (Flags { z: false, ..rrc_spec(old(self).regs.a as int).1 }),
            final(self).regs == (Registers {
                a: final(self).regs.a,
                f: final(self).regs.f,
                pc: final(self).regs.pc,
                ..old(self).regs
            }),
            final(self).ime == old(self).ime && final(self).state == old(self).state
                && final(self).glitched == old(self).glitched,
    {
        let v = self.regs.a;
        self.regs.a = v / 2 + v % 2 * 128;
        self.regs.f = Flags { z: false, n: false, h: false, c: v % 2 == 1 };
        self.cycle_prefetch(bus);
    }

    pub fn rla(&mut self, bus: &mut Bus)
        requires
            old(bus).wf(),
            old(self).opcode != Opcode::HALT,
        ensures
            final(bus).wf(),
            final(bus).mcycles as int == sat_add(old(bus).mcycles as int, 1),
            final(self).regs.a as int == rl_spec(old(self).regs.a as int, old(self).regs.f.c).0,
            final(self).regs.f == (Flags {
                z: false,
                ..rl_spec(old(self).regs.a as int, old(self).regs.f.c).1
            }),
            final(self).regs == (Registers {
                a: final(self).regs.a,
                f: final(self).regs.f,
                pc: final(self).regs.pc,
                ..old(self).regs
            }),
            final(self).ime == old(self).ime && final(self).state == old(self).state
                && final(self).glitched == old(self).glitched,
    {
        let v = self.regs.a;
        let cin: u8 = if self.regs.f.c {
            1
        } else {
            0
        };
        self.regs.a = v % 128 * 2 + cin;
        self.regs.f = Flags { z: false, n: false, h: false, c: v >= 128 };
        proof {
            assert(v as int % 128 * 2 == v as int * 2 % 256) by (nonlinear_arith);
        }
        self.cycle_prefetch(bus);
    }

    pub fn rra(&mut self, bus: &mut Bus)
        requires
            old(bus).wf(),
            old(self).opcode != Opcode::HALT,
        ensures
            final(bus).wf(),
            final(bus).mcycles as int == sat_add(old(bus).mcycles as int, 1),
            final(self).regs.a as int == rr_spec(old(self).regs.a as int, old(self).regs.f.c).0,
            final(self).regs.f == (Flags {
                z: false,
                ..rr_spec(old(self).regs.a as int, old(self).regs.f.c).1
            }),
            final(self).regs == (Registers {
                a: final(self).regs.a,
                f: final(self).regs.f,
                pc: final(self).regs.pc,
                ..old(self).regs
            }),
            final(self).ime == old(self).ime && final(self).state == old(self).state
                && final(self).glitched == old(self).glitched,
    {
        let v = self.regs.a;
        let cin: u8 = if self.regs.f.c {
            128
        } else {
            0
        };
        self.regs.a = v / 2 + cin;
        self.regs.f = Flags { z: false, n: false, h: false, c: v % 2 == 1 };
        self.cycle_prefetch(bus);
    }

    /// `DAA`: adjust the accumulator back to packed BCD.
    #[verifier::rlimit(100)]
    pub fn daa(&mut self, bus: &mut Bus)
        requires
            old(bus).wf(),
            old(self).opcode != Opcode::HALT,
        ensures
            final(bus).wf(),
            final(bus).mcycles as int == sat_add(old(bus).mcycles as int, 1),
            final(self).regs.a as int == daa_spec(old(self).regs.a as int, old(self).regs.f).0,
            final(self).regs.f == daa_spec(old(self).regs.a as int, old(self).regs.f).1,
            final(self).regs == (Registers {
                a: final(self).regs.a,
                f: final(self).regs.f,
                pc: final(self).regs.pc,
                ..old(self).regs
            }),
            final(self).ime == old(self).ime && final(self).state == old(self).state
                && final(self).glitched == old(self).glitched,
    {
        let a = self.regs.a;
        let fl = self.regs.f;
        let r: u8;
        let cout: bool;
        if fl.n {
            let mut adj: u8 = 0;
            if fl.h {
                adj = adj + 6;
            }
            if fl.c {
                adj = adj + 0x60;
            }
            r = ((a as u16 + 256 - adj as u16) % 256) as u8;
            cout = fl.c;
            proof {
                let d = a as int - adj as int;
                if d < 0 {
                    vstd::arithmetic::div_mod::lemma_small_mod((d + 256) as nat, 256);
                } else {
                    vstd::arithmetic::div_mod::lemma_mod_add_multiples_vanish(d, 256);
                    vstd::arithmetic::div_mod::lemma_small_mod(d as nat, 256);
                }
            }
        } else {
            let mut adj: u8 = 0;
            if fl.h || a % 16 > 9 {
                adj = adj + 6;
            }
            if fl.c || a > 0x99 {
                adj = adj + 0x60;
            }
            r = ((a as u16 + adj as u16) % 256) as u8;
            cout = fl.c || a > 0x99;
        }
        self.regs.a = r;
        self.regs.f = Flags { z: r == 0, n: fl.n, h: false, c: cout };
        self.cycle_prefetch(bus);
    }

    /// `CPL`: complement the accumulator.
    pub fn cpl(&mut self, bus: &mut Bus)
        requires
            old(bus).wf(),
            old(self).opcode != Opcode::HALT,
        ensures
            final(bus).wf(),
            final(bus).mcycles as int == sat_add(old(bus).mcycles as int, 1),
            final(self).regs.a as int == 255 - old(self).regs.a as int,
            final(self).regs.f == (Flags { n: true, h: true, ..old(self).regs.f }),
            final(self).regs == (Registers {
                a: final(self).regs.a,
                f: final(self).regs.f,
                pc: final(self).regs.pc,
                ..old(self).regs
            }),
            final(self).ime == old(self).ime && final(self).state == old(self).state
                && final(self).glitched == old(self).glitched,
    {
        self.regs.a = 255 - self.regs.a;
        self.regs.f = Flags { n: true, h: true, ..self.regs.f };
        self.cycle_prefetch(bus);
    }

    /// `SCF` / `CCF`: set or complement the carry.
    pub fn scf(&mut self, bus: &mut Bus)
        requires
            old(bus).wf(),
            old(self).opcode != Opcode::HALT,
        ensures
            final(bus).wf(),
            final(bus).mcycles as int == sat_add(old(bus).mcycles as int, 1),
            final(self).regs.f == (Flags { n: false, h: false, c: true, ..old(self).regs.f }),
            final(self).regs == (Registers {
                f: final(self).regs.f,
                pc: final(self).regs.pc,
                ..old(self).regs
            }),
            final(self).ime == old(self).ime && final(self).state == old(self).state
                && final(self).glitched == old(self).glitched,
    {
        self.regs.f = Flags { n: false, h: false, c: true, ..self.regs.f };
        self.cycle_prefetch(bus);
    }

    pub fn ccf(&mut self, bus: &mut Bus)
        requires
            old(bus).wf(),
            old(self).opcode != Opcode::HALT,
        ensures
            final(bus).wf(),
            final(bus).mcycles as int == sat_add(old(bus).mcycles as int, 1),
            final(self).regs.f == (Flags {
                n: false,
                h: false,
                c: !old(self).regs.f.c,
                ..old(self).regs.f
            }),
            final(self).regs == (Registers {
                f: final(self).regs.f,
                pc: final(self).regs.pc,
                ..old(self).regs
            }),
            final(self).ime == old(self).ime && final(self).state == old(self).state
                && final(self).glitched == old(self).glitched,
    {
        self.regs.f = Flags { n: false, h: false, c: !self.regs.f.c, ..self.regs.f };
        self.cycle_prefetch(bus);
    }

    /// `LD r16, imm16`.
    pub fn ld16(&mut self, bus: &mut Bus, dest: Reg16)
        requires
            old(bus).wf(),
            old(self).opcode != Opcode::HALT,
            dest != Reg16::AF,
        ensures
            final(bus).wf(),
            final(bus).mcycles as int == sat_add(old(bus).mcycles as int, 3),
            code_stable(old(self).regs.pc.wrapping_add(1) as int) ==> final(self).regs.get16_spec(dest) == old(bus).read_spec(old(self).regs.pc as int) + 256 * old(bus).read_spec(old(self).regs.pc.wrapping_add(1) as int),
            final(self).regs.f == old(self).regs.f,
            final(self).regs.a == old(self).regs.a,
            dest == Reg16::BC ==> final(self).regs == (Registers {
                b: final(self).regs.b,
                c: final(self).regs.c,
                pc: final(self).regs.pc,
                ..old(self).regs
            }),
            dest == Reg16::DE ==> final(self).regs == (Registers {
                d: final(self).regs.d,
                e: final(self).regs.e,
                pc: final(self).regs.pc,
                ..old(self).regs
            }),
            dest == Reg16::HL ==> final(self).regs == (Registers {
                h: final(self).regs.h,
                l: final(self).regs.l,
                pc: final(self).regs.pc,
                ..old(self).regs
            }),
            dest == Reg16::SP ==> final(self).regs == (Registers {
                sp: final(self).regs.sp,
                pc: final(self).regs.pc,
                ..old(self).regs
            }),
            final(self).ime == old(self).ime && final(self).state == old(self).state
                && final(self).glitched == old(self).glitched,
    {
        let data = self.fetch_imm16(bus);
        self.regs.set16(dest, data);
        self.cycle_prefetch(bus);
    }

    /// The pointer of an `r16mem` operand; the `HL` forms step `HL`.
    fn r16mem_addr(&mut self, r: R16mem) -> (addr: u16)
        ensures
            addr as int == (match r {
                R16mem::BC => old(self).regs.b as int * 256 + old(self).regs.c as int,
                R16mem::DE => old(self).regs.d as int * 256 + old(self).regs.e as int,
                R16mem::HLi => hl_of(old(self).regs),
                R16mem::HLd => hl_of(old(self).regs),
            }),
            final(self).regs.f == old(self).regs.f,
            final(self).regs.a == old(self).regs.a,
            final(self).regs.pc == old(self).regs.pc,
            final(self).regs.sp == old(self).regs.sp,
            (r is BC || r is DE) ==> *final(self) == *old(self),
            r is HLi ==> hl_of(final(self).regs) == (hl_of(old(self).regs) + 1) % 0x10000,
            r is HLd ==> hl_of(final(self).regs) == (hl_of(old(self).regs) + 0xFFFF) % 0x10000,
            final(self).regs.b == old(self).regs.b && final(self).regs.c == old(self).regs.c
                && final(self).regs.d == old(self).regs.d && final(self).regs.e == old(self).regs.e,
            *final(self) == (Cpu { regs: final(self).regs, ..*old(self) }),
    {
        match r {
            R16mem::BC => self.regs.get16(Reg16::BC),
            R16mem::DE => self.regs.get16(Reg16::DE),
            R16mem::HLi => {
                let hl = self.regs.get16(Reg16::HL);
                self.regs.set16(Reg16::HL, hl.wrapping_add(1));
                hl
            }
            R16mem::HLd => {
                let hl = self.regs.get16(Reg16::HL);
                self.regs.set16(Reg16::HL, hl.wrapping_sub(1));
                hl
            }
        }
    }

    /// `LD [r16mem], A` / `LD A, [r16mem]`.
    pub fn ld_r16mem_a(&mut self, bus: &mut Bus, r: R16mem)
        requires
            old(bus).wf(),
            old(self).opcode != Opcode::HALT,
        ensures
            final(bus).wf(),
            final(bus).mcycles as int == sat_add(old(bus).mcycles as int, 2),
            ({
                let addr = r16mem_target(old(self).regs, r);
                stack_ram(addr) ==> final(bus).read_spec(addr) == old(self).regs.a as int
            }),
            r is HLi ==> hl_of(final(self).regs) == (hl_of(old(self).regs) + 1) % 0x10000,
            r is HLd ==> hl_of(final(self).regs) == (hl_of(old(self).regs) + 0xFFFF) % 0x10000,
            (r is BC || r is DE) ==> final(self).regs.h == old(self).regs.h && final(self).regs.l == old(self).regs.l,
            final(self).regs == (Registers {
                h: final(self).regs.h,
                l: final(self).regs.l,
                pc: final(self).regs.pc,
                ..old(self).regs
            }),
            final(self).regs.pc == old(self).regs.pc.wrapping_add(1),
            final(self).ime == old(self).ime && final(self).state == old(self).state
                && final(self).glitched == old(self).glitched,
    {
        let addr = self.r16mem_addr(r);
        let a = self.regs.a;
        let ghost g1 = *bus;
        bus.cycle_write(addr, a);
        let ghost g2 = *bus;
        self.cycle_prefetch(bus);
        proof {
            if stack_ram(addr as int) {
                lemma_one_stack_write(g1, g2, addr, a);
                lemma_cycle_preserves_read(g2, *bus, addr as int);
            }
        }
    }

    pub fn ld_a_r16mem(&mut self, bus: &mut Bus, r: R16mem)
        requires
            old(bus).wf(),
            old(self).opcode != Opcode::HALT,
        ensures
            final(bus).wf(),
            final(bus).mcycles as int == sat_add(old(bus).mcycles as int, 2),
            final(self).regs.a as int == old(bus).read_spec(r16mem_target(old(self).regs, r)),
            r is HLi ==> hl_of(final(self).regs) == (hl_of(old(self).regs) + 1) % 0x10000,
            r is HLd ==> hl_of(final(self).regs) == (hl_of(old(self).regs) + 0xFFFF) % 0x10000,
            (r is BC || r is DE) ==> final(self).regs.h == old(self).regs.h && final(self).regs.l == old(self).regs.l,
            final(self).regs == (Registers {
                a: final(self).regs.a,
                h: final(self).regs.h,
                l: final(self).regs.l,
                pc: final(self).regs.pc,
                ..old(self).regs
            }),
            final(self).regs.pc == old(self).regs.pc.wrapping_add(1),
            final(self).ime == old(self).ime && final(self).state == old(self).state
                && final(self).glitched == old(self).glitched,
    {
        let addr = self.r16mem_addr(r);
        let v = bus.cycle_read(addr);
        self.regs.a = v;
        self.cycle_prefetch(bus);
    }

    /// `LD [imm16], SP`: store the stack pointer little-endian.
    pub fn ld_imm16_sp(&mut self, bus: &mut Bus)
        requires
            old(bus).wf(),
            old(self).opcode != Opcode::HALT,
        ensures
            final(bus).wf(),
            final(bus).mcycles as int == sat_add(old(bus).mcycles as int, 5),
            ({
                let target = old(bus).read_spec(old(self).regs.pc as int) + 256 * old(bus).read_spec(old(self).regs.pc.wrapping_add(1) as int);
                code_stable(old(self).regs.pc.wrapping_add(1) as int) && stack_ram(target)
                    && stack_ram((target as u16).wrapping_add(1) as int) ==> final(bus).read_spec(
                    target,
                ) == old(self).regs.sp as int % 256 && final(bus).read_spec(
                    (target as u16).wrapping_add(1) as int,
                ) == old(self).regs.sp as int / 256
            }),
            final(self).regs == (Registers { pc: final(self).regs.pc, ..old(self).regs }),
            final(self).ime == old(self).ime && final(self).state == old(self).state
                && final(self).glitched == old(self).glitched,
    {
        let addr = self.fetch_imm16(bus);
        let sp = self.regs.sp;
        let lo = (sp % 256) as u8;
        let hi = (sp / 256) as u8;
        let ghost g1 = *bus;
        bus.cycle_write(addr, lo);
        let ghost g2 = *bus;
        let addr2 = addr.wrapping_add(1);
        bus.cycle_write(addr2, hi);
        let ghost g3 = *bus;
        self.cycle_prefetch(bus);
        proof {
            if stack_ram(addr as int) && stack_ram(addr2 as int) {
                lemma_two_stack_writes(g1, g2, g3, addr, lo, addr2, hi);
                lemma_cycle_preserves_read(g3, *bus, addr as int);
                lemma_cycle_preserves_read(g3, *bus, addr2 as int);
            }
        }
    }

    /// `INC r16` / `DEC r16`: no flags, one internal cycle.
    #[verifier::rlimit(100)]
    #[verifier::spinoff_prover]
    pub fn inc16(&mut self, bus: &mut Bus, r16: Reg16)
        requires
            old(bus).wf(),
            old(self).opcode != Opcode::HALT,
            r16 != Reg16::AF,
        ensures
            final(bus).wf(),
            final(bus).mcycles as int == sat_add(old(bus).mcycles as int, 2),
            final(self).regs.f == old(self).regs.f,
            final(self).regs.get16_spec(r16) == (old(self).regs.get16_spec(r16) + 1) % 0x10000,
            final(self).ime == old(self).ime && final(self).state == old(self).state
                && final(self).glitched == old(self).glitched,
    {
        let v = self.regs.get16(r16);
        self.regs.set16(r16, v.wrapping_add(1));
        bus.cycle();
        self.cycle_prefetch(bus);
    }

    #[verifier::rlimit(100)]
    #[verifier::spinoff_prover]
    pub fn dec16(&mut self, bus: &mut Bus, r16: Reg16)
        requires
            old(bus).wf(),
            old(self).opcode != Opcode::HALT,
            r16 != Reg16::AF,
        ensures
            final(bus).wf(),
            final(bus).mcycles as int == sat_add(old(bus).mcycles as int, 2),
            final(self).regs.f == old(self).regs.f,
            final(self).regs.get16_spec(r16) == (old(self).regs.get16_spec(r16) + 0xFFFF)
                % 0x10000,
            final(self).ime == old(self).ime && final(self).state == old(self).state
                && final(self).glitched == old(self).glitched,
    {
        let v = self.regs.get16(r16);
        self.regs.set16(r16, v.wrapping_sub(1));
        bus.cycle();
        self.cycle_prefetch(bus);
    }

    /// `ADD HL, r16`.
    #[verifier::rlimit(100)]
    #[verifier::spinoff_prover]
    pub fn add_hl(&mut self, bus: &mut Bus, r16: Reg16)
        requires
            old(bus).wf(),
            old(self).opcode != Opcode::HALT,
            r16 != Reg16::AF,
        ensures
            final(bus).wf(),
            final(bus).mcycles as int == sat_add(old(bus).mcycles as int, 2),
            ({
                let hl = hl_of(old(self).regs);
                let v = old(self).regs.get16_spec(r16);
                hl_of(final(self).regs) == add16_spec(hl, v, old(self).regs.f).0 && final(self).regs.f == add16_spec(hl, v, old(self).regs.f).1
            }),
            final(self).ime == old(self).ime && final(self).state == old(self).state
                && final(self).glitched == old(self).glitched,
    {
        let hl = self.regs.get16(Reg16::HL);
        let v = self.regs.get16(r16);
        let sum: u32 = hl as u32 + v as u32;
        self.regs.set16(Reg16::HL, (sum % 0x10000) as u16);
        self.regs.f = Flags {
            z: self.regs.f.z,
            n: false,
            h: hl % 0x1000 + v % 0x1000 > 0xFFF,
            c: sum > 0xFFFF,
        };
        bus.cycle();
        self.cycle_prefetch(bus);
    }

    /// The 16-bit result of adding a signed offset byte, as the hardware
    /// wraps it.
    fn signed_add16(&self, base: u16, off: u8) -> (r: u16)
        ensures
            r as int == (base as int + alu::signed8(off as int) + 0x10000) % 0x10000,
    {
        let soff: u16 = if off < 128 {
            off as u16
        } else {
            off as u16 + 0xFF00
        };
        let r = base.wrapping_add(soff);
        proof {
            let b = base as int;
            let o = off as int;
            let so = alu::signed8(o);
            if o < 128 {
                assert(r as int == (b + o) % 0x10000);
                vstd::arithmetic::div_mod::lemma_mod_add_multiples_vanish(b + o, 0x10000);
            } else {
                assert(r as int == (b + o + 0xFF00) % 0x10000);
                assert(o + 0xFF00 == so + 0x10000);
                vstd::arithmetic::div_mod::lemma_mod_add_multiples_vanish(b + so + 0x10000, 0x10000);
                vstd::arithmetic::div_mod::lemma_mod_add_multiples_vanish(b + so, 0x10000);
                assert((b + so + 0x20000) % 0x10000 == (b + so + 0x10000) % 0x10000);
            }
        }
        r
    }

    /// `ADD SP, e8`.
    #[verifier::rlimit(100)]
    #[verifier::spinoff_prover]
    pub fn add_sp_imm8(&mut self, bus: &mut Bus)
        requires
            old(bus).wf(),
            old(self).opcode != Opcode::HALT,
        ensures
            final(bus).wf(),
            final(bus).mcycles as int == sat_add(old(bus).mcycles as int, 4),
            ({
                let v = src_value(*old(self), *old(bus), Src::Imm);
                final(self).regs.sp as int == addsp_spec(old(self).regs.sp as int, v).0 && final(self).regs.f == addsp_spec(old(self).regs.sp as int, v).1
            }),
            final(self).ime == old(self).ime && final(self).state == old(self).state
                && final(self).glitched == old(self).glitched,
    {
        let off = self.fetch_src(bus, Src::Imm);
        let sp = self.regs.sp;
        let r = self.signed_add16(sp, off);
        self.regs.sp = r;
        self.regs.f = Flags {
            z: false,
            n: false,
            h: sp % 16 + (off % 16) as u16 > 15,
            c: sp % 256 + off as u16 > 255,
        };
        bus.cycle();
        bus.cycle();
        self.cycle_prefetch(bus);
    }

    /// `LD HL, SP + e8`.
    #[verifier::rlimit(100)]
    #[verifier::spinoff_prover]
    pub fn ld_hl_spimm8(&mut self, bus: &mut Bus)
        requires
            old(bus).wf(),
            old(self).opcode != Opcode::HALT,
        ensures
            final(bus).wf(),
            final(bus).mcycles as int == sat_add(old(bus).mcycles as int, 3),
            ({
                let v = src_value(*old(self), *old(bus), Src::Imm);
                hl_of(final(self).regs) == addsp_spec(old(self).regs.sp as int, v).0 && final(self).regs.f == addsp_spec(old(self).regs.sp as int, v).1 && final(self).regs.sp == old(self).regs.sp
            }),
            final(self).ime == old(self).ime && final(self).state == old(self).state
                && final(self).glitched == old(self).glitched,
    {
        let off = self.fetch_src(bus, Src::Imm);
        let sp = self.regs.sp;
        let r = self.signed_add16(sp, off);
        self.regs.set16(Reg16::HL, r);
        self.regs.f = Flags {
            z: false,
            n: false,
            h: sp % 16 + (off % 16) as u16 > 15,
            c: sp % 256 + off as u16 > 255,
        };
        bus.cycle();
        self.cycle_prefetch(bus);
    }

    /// `LD SP, HL`.
    pub fn ld_sp_hl(&mut self, bus: &mut Bus)
        requires
            old(bus).wf(),
            old(self).opcode != Opcode::HALT,
        ensures
            final(bus).wf(),
            final(bus).mcycles as int == sat_add(old(bus).mcycles as int, 2),
            final(self).regs.sp as int == hl_of(old(self).regs),
            final(self).regs == (Registers {
                sp: final(self).regs.sp,
                pc: final(self).regs.pc,
                ..old(self).regs
            }),
            final(self).ime == old(self).ime && final(self).state == old(self).state
                && final(self).glitched == old(self).glitched,
    {
        let hl = self.regs.get16(Reg16::HL);
        self.regs.sp = hl;
        bus.cycle();
        self.cycle_prefetch(bus);
    }

    /// `JP HL`.
    pub fn jp_hl(&mut self, bus: &mut Bus)
        requires
            old(bus).wf(),
            old(self).opcode != Opcode::HALT,
        ensures
            final(bus).wf(),
            final(bus).mcycles as int == sat_add(old(bus).mcycles as int, 1),
            final(self).instr_addr as int == hl_of(old(self).regs),
            final(self).regs == (Registers { pc: final(self).regs.pc, ..old(self).regs }),
            final(self).ime == old(self).ime && final(self).state == old(self).state
                && final(self).glitched == old(self).glitched,
    {
        let hl = self.regs.get16(Reg16::HL);
        self.regs.pc = hl;
        self.cycle_prefetch(bus);
    }

    /// The high-page loads and stores (`LDH`) and the absolute forms.
    pub fn ldh_c_a(&mut self, bus: &mut Bus)
        requires
            old(bus).wf(),
            old(self).opcode != Opcode::HALT,
        ensures
            final(bus).wf(),
            final(bus).mcycles as int == sat_add(old(bus).mcycles as int, 2),
            stack_ram(0xFF00 + old(self).regs.c as int) ==> final(bus).read_spec(
                0xFF00 + old(self).regs.c as int,
            ) == old(self).regs.a as int,
            final(self).regs == (Registers { pc: final(self).regs.pc, ..old(self).regs }),
            final(self).ime == old(self).ime && final(self).state == old(self).state
                && final(self).glitched == old(self).glitched,
    {
        let addr = 0xFF00 + self.regs.c as u16;
        let a = self.regs.a;
        let ghost g1 = *bus;
        bus.cycle_write(addr, a);
        let ghost g2 = *bus;
        self.cycle_prefetch(bus);
        proof {
            if stack_ram(addr as int) {
                lemma_one_stack_write(g1, g2, addr, a);
                lemma_cycle_preserves_read(g2, *bus, addr as int);
            }
        }
    }

    pub fn ldh_a_c(&mut self, bus: &mut Bus)
        requires
            old(bus).wf(),
            old(self).opcode != Opcode::HALT,
        ensures
            final(bus).wf(),
            final(bus).mcycles as int == sat_add(old(bus).mcycles as int, 2),
            final(self).regs.a as int == old(bus).read_spec(0xFF00 + old(self).regs.c as int),
            final(self).regs == (Registers {
                a: final(self).regs.a,
                pc: final(self).regs.pc,
                ..old(self).regs
            }),
            final(self).ime == old(self).ime && final(self).state == old(self).state
                && final(self).glitched == old(self).glitched,
    {
        let addr = 0xFF00 + self.regs.c as u16;
        let v = bus.cycle_read(addr);
        self.regs.a = v;
        self.cycle_prefetch(bus);
    }

    pub fn ldh_imm8_a(&mut self, bus: &mut Bus)
        requires
            old(bus).wf(),
            old(self).opcode != Opcode::HALT,
        ensures
            final(bus).wf(),
            final(bus).mcycles as int == sat_add(old(bus).mcycles as int, 3),
            ({
                let target = 0xFF00 + old(bus).read_spec(old(self).regs.pc as int);
                stack_ram(target) ==> final(bus).read_spec(target) == old(self).regs.a as int
            }),
            final(self).regs == (Registers { pc: final(self).regs.pc, ..old(self).regs }),
            final(self).ime == old(self).ime && final(self).state == old(self).state
                && final(self).glitched == old(self).glitched,
    {
        let off = self.fetch_src(bus, Src::Imm);
        let addr = 0xFF00 + off as u16;
        let a = self.regs.a;
        let ghost g1 = *bus;
        bus.cycle_write(addr, a);
        let ghost g2 = *bus;
        self.cycle_prefetch(bus);
        proof {
            if stack_ram(addr as int) {
                lemma_one_stack_write(g1, g2, addr, a);
                lemma_cycle_preserves_read(g2, *bus, addr as int);
            }
        }
    }

    pub fn ldh_a_imm8(&mut self, bus: &mut Bus)
        requires
            old(bus).wf(),
            old(self).opcode != Opcode::HALT,
        ensures
            final(bus).wf(),
            final(bus).mcycles as int == sat_add(old(bus).mcycles as int, 3),
            ({
                let target = 0xFF00 + old(bus).read_spec(old(self).regs.pc as int);
                stack_ram(target) ==> final(self).regs.a as int == old(bus).read_spec(target)
            }),
            final(self).regs == (Registers {
                a: final(self).regs.a,
                pc: final(self).regs.pc,
                ..old(self).regs
            }),
            final(self).ime == old(self).ime && final(self).state == old(self).state
                && final(self).glitched == old(self).glitched,
    {
        let ghost pre = *old(bus);
        let off = self.fetch_src(bus, Src::Imm);
        let ghost g1 = *bus;
        let addr = 0xFF00 + off as u16;
        proof {
            if stack_ram(addr as int) {
                lemma_cycle_preserves_read(pre, g1, addr as int);
            }
        }
        let v = bus.cycle_read(addr);
        self.regs.a = v;
        self.cycle_prefetch(bus);
    }

    pub fn ld_imm16_a(&mut self, bus: &mut Bus)
        requires
            old(bus).wf(),
            old(self).opcode != Opcode::HALT,
        ensures
            final(bus).wf(),
            final(bus).mcycles as int == sat_add(old(bus).mcycles as int, 4),
            ({
                let target = old(bus).read_spec(old(self).regs.pc as int) + 256 * old(bus).read_spec(old(self).regs.pc.wrapping_add(1) as int);
                code_stable(old(self).regs.pc.wrapping_add(1) as int) && stack_ram(target)
                    ==> final(bus).read_spec(target) == old(self).regs.a as int
            }),
            final(self).regs == (Registers { pc: final(self).regs.pc, ..old(self).regs }),
            final(self).ime == old(self).ime && final(self).state == old(self).state
                && final(self).glitched == old(self).glitched,
    {
        let addr = self.fetch_imm16(bus);
        let a = self.regs.a;
        let ghost g1 = *bus;
        bus.cycle_write(addr, a);
        let ghost g2 = *bus;
        self.cycle_prefetch(bus);
        proof {
            if stack_ram(addr as int) {
                lemma_one_stack_write(g1, g2, addr, a);
                lemma_cycle_preserves_read(g2, *bus, addr as int);
            }
        }
    }

    pub fn ld_a_imm16(&mut self, bus: &mut Bus)
        requires
            old(bus).wf(),
            old(self).opcode != Opcode::HALT,
        ensures
            final(bus).wf(),
            final(bus).mcycles as int == sat_add(old(bus).mcycles as int, 4),
            ({
                let target = old(bus).read_spec(old(self).regs.pc as int) + 256 * old(bus).read_spec(old(self).regs.pc.wrapping_add(1) as int);
                code_stable(old(self).regs.pc.wrapping_add(1) as int) && stack_ram(target)
                    ==> final(self).regs.a as int == old(bus).read_spec(target)
            }),
            final(self).regs == (Registers {
                a: final(self).regs.a,
                pc: final(self).regs.pc,
                ..old(self).regs
            }),
            final(self).ime == old(self).ime && final(self).state == old(self).state
                && final(self).glitched == old(self).glitched,
    {
        let ghost pre = *old(bus);
        let addr = self.fetch_imm16(bus);
        let ghost g2 = *bus;
        proof {
            if stack_ram(addr as int) {
                lemma_cycle_preserves_read(pre, g2, addr as int);
            }
        }
        let v = bus.cycle_read(addr);
        self.regs.a = v;
        self.cycle_prefetch(bus);
    }
}


impl Cpu {
    /// Write back an eight-bit result to its operand: a register store,
    /// or a write-cycle at `HL` whose byte (for a plain-RAM target) reads
    /// back afterwards.
    fn write_r8_op(&mut self, bus: &mut Bus, r: R8, v: u8)
        requires
            old(bus).wf(),
        ensures
            final(bus).wf(),
            final(bus).mcycles as int == sat_add(
                old(bus).mcycles as int,
                (if r is HLaddr {
                    1int
                } else {
                    0
                }),
            ),
            *final(self) == (Cpu { regs: final(self).regs, ..*old(self) }),
            r matches R8::Reg(reg) ==> final(self).regs.get8_spec(reg) == v && (forall|o: Reg8|
                o != reg ==> final(self).regs.get8_spec(o) == old(self).regs.get8_spec(o))
                && final(self).regs.f == old(self).regs.f && final(self).regs.pc == old(self).regs.pc && final(self).regs.sp == old(self).regs.sp && *final(bus) == *old(bus),
            r is HLaddr ==> *final(self) == *old(self) && (stack_ram(hl_of(old(self).regs))
                ==> final(bus).read_spec(hl_of(old(self).regs)) == v as int),
    {
        match r {
            R8::Reg(reg) => self.regs.set8(reg, v),
            R8::HLaddr => {
                let hl = self.regs.get16(Reg16::HL);
                let ghost g1 = *bus;
                bus.cycle_write(hl, v);
                proof {
                    if stack_ram(hl as int) {
                        lemma_one_stack_write(g1, *bus, hl, v);
                    }
                }
            }
        }
    }

    /// The rotate/shift/swap family of the CB table, selected by `k` in
    /// the order of the table rows.
    pub fn cb_rot(&mut self, bus: &mut Bus, k: u8, r: R8)
        requires
            old(bus).wf(),
            old(self).opcode != Opcode::HALT,
            k < 8,
        ensures
            final(bus).wf(),
            final(bus).mcycles as int == sat_add(
                old(bus).mcycles as int,
                (if r is HLaddr {
                    3int
                } else {
                    1
                }),
            ),
            ({
                let v = src_value(*old(self), *old(bus), Src::R(r));
                let res = cb_rot_spec(k as int, v, old(self).regs.f.c);
                &&& final(self).regs.f == res.1
                &&& (r matches R8::Reg(reg) ==> final(self).regs.get8_spec(reg) as int == res.0
                    && (forall|o: Reg8| o != reg ==> final(self).regs.get8_spec(o) == old(self).regs.get8_spec(o)))
                &&& (r is HLaddr && stack_ram(hl_of(old(self).regs)) ==> final(bus).read_spec(
                    hl_of(old(self).regs),
                ) == res.0)
                &&& (r is HLaddr ==> final(self).regs == (Registers {
                    f: final(self).regs.f,
                    pc: final(self).regs.pc,
                    ..old(self).regs
                }))
            }),
            final(self).regs.sp == old(self).regs.sp,
            final(self).ime == old(self).ime && final(self).state == old(self).state
                && final(self).glitched == old(self).glitched,
    {
        let v = self.fetch_src(bus, Src::R(r));
        let cin = self.regs.f.c;
        let res: u8;
        let fl: Flags;
        if k == 0 {
            res = v % 128 * 2 + v / 128;
            fl = Flags { z: res == 0, n: false, h: false, c: v >= 128 };
        } else if k == 1 {
            res = v / 2 + v % 2 * 128;
            fl = Flags { z: res == 0, n: false, h: false, c: v % 2 == 1 };
        } else if k == 2 {
            res = v % 128 * 2 + (if cin {
                1
            } else {
                0
            });
            fl = Flags { z: res == 0, n: false, h: false, c: v >= 128 };
        } else if k == 3 {
            res = v / 2 + (if cin {
                128
            } else {
                0
            });
            fl = Flags { z: res == 0, n: false, h: false, c: v % 2 == 1 };
        } else if k == 4 {
            res = v % 128 * 2;
            fl = Flags { z: res == 0, n: false, h: false, c: v >= 128 };
        } else if k == 5 {
            res = v / 2 + v / 128 * 128;
            fl = Flags { z: res == 0, n: false, h: false, c: v % 2 == 1 };
        } else if k == 6 {
            res = v % 16 * 16 + v / 16;
            fl = Flags { z: res == 0, n: false, h: false, c: false };
        } else {
            res = v / 2;
            fl = Flags { z: res == 0, n: false, h: false, c: v % 2 == 1 };
        }
        proof {
            assert(v as int % 128 * 2 == v as int * 2 % 256) by (nonlinear_arith);
        }
        self.regs.f = fl;
        let ghost gf = *self;
        self.write_r8_op(bus, r, res);
        let ghost cw = *self;
        let ghost ga = *bus;
        self.cycle_prefetch(bus);
        proof {
            if r is HLaddr && stack_ram(hl_of(old(self).regs)) {
                lemma_cycle_preserves_read(ga, *bus, hl_of(old(self).regs));
            }
            match r {
                R8::Reg(reg) => {
                    assert forall|o: Reg8| o != reg implies self.regs.get8_spec(o) == old(self).regs.get8_spec(o) by {
                        assert(cw.regs.get8_spec(o) == gf.regs.get8_spec(o));
                        assert(self.regs.get8_spec(o) == cw.regs.get8_spec(o));
                        assert(gf.regs.get8_spec(o) == old(self).regs.get8_spec(o));
                    }
                }
                _ => {}
            }
        }
    }

    /// `BIT b3, r8`: test a bit; one extra cycle for `[HL]`.
    pub fn bit(&mut self, bus: &mut Bus, r: R8, b3: u8)
        requires
            old(bus).wf(),
            old(self).opcode != Opcode::HALT,
            b3 < 8,
        ensures
            final(bus).wf(),
            final(bus).mcycles as int == sat_add(
                old(bus).mcycles as int,
                (if r is HLaddr {
                    2int
                } else {
                    1
                }),
            ),
            final(self).regs.f == bit_flags_spec(
                src_value(*old(self), *old(bus), Src::R(r)),
                b3 as int,
                old(self).regs.f,
            ),
            final(self).regs == (Registers {
                f: final(self).regs.f,
                pc: final(self).regs.pc,
                ..old(self).regs
            }),
            final(self).ime == old(self).ime && final(self).state == old(self).state
                && final(self).glitched == old(self).glitched,
    {
        let v = self.fetch_src(bus, Src::R(r));
        let m = alu::pow2_8_exec(b3);
        let z = v / m % 2 == 0;
        self.regs.f = Flags { z, n: false, h: true, c: self.regs.f.c };
        self.cycle_prefetch(bus);
    }

    /// `RES b3, r8` / `SET b3, r8`: clear or set one bit, flags
    /// untouched.
    pub fn res(&mut self, bus: &mut Bus, r: R8, b3: u8)
        requires
            old(bus).wf(),
            old(self).opcode != Opcode::HALT,
            b3 < 8,
        ensures
            final(bus).wf(),
            final(bus).mcycles as int == sat_add(
                old(bus).mcycles as int,
                (if r is HLaddr {
                    3int
                } else {
                    1
                }),
            ),
            final(self).regs.f == old(self).regs.f,
            r matches R8::Reg(reg) ==> final(self).regs.get8_spec(reg) as int == res_spec(
                src_value(*old(self), *old(bus), Src::R(r)),
                b3 as int,
            ) && (forall|o: Reg8| o != reg ==> final(self).regs.get8_spec(o) == old(self).regs.get8_spec(o)),
            r is HLaddr && stack_ram(hl_of(old(self).regs)) ==> final(bus).read_spec(
                hl_of(old(self).regs),
            ) == res_spec(src_value(*old(self), *old(bus), Src::R(r)), b3 as int),
            r is HLaddr ==> final(self).regs == (Registers {
                pc: final(self).regs.pc,
                ..old(self).regs
            }),
            final(self).regs.sp == old(self).regs.sp,
            final(self).ime == old(self).ime && final(self).state == old(self).state
                && final(self).glitched == old(self).glitched,
    {
        let v = self.fetch_src(bus, Src::R(r));
        let m = alu::pow2_8_exec(b3);
        let res: u8 = if v / m % 2 == 1 {
            v - m
        } else {
            v
        };
        let ghost gf = *self;
        self.write_r8_op(bus, r, res);
        let ghost cw = *self;
        let ghost ga = *bus;
        self.cycle_prefetch(bus);
        proof {
            if r is HLaddr && stack_ram(hl_of(old(self).regs)) {
                lemma_cycle_preserves_read(ga, *bus, hl_of(old(self).regs));
            }
            match r {
                R8::Reg(reg) => {
                    assert forall|o: Reg8| o != reg implies self.regs.get8_spec(o) == old(self).regs.get8_spec(o) by {
                        assert(cw.regs.get8_spec(o) == gf.regs.get8_spec(o));
                        assert(self.regs.get8_spec(o) == cw.regs.get8_spec(o));
                        assert(gf.regs.get8_spec(o) == old(self).regs.get8_spec(o));
                    }
                }
                _ => {}
            }
        }
    }

    pub fn set(&mut self, bus: &mut Bus, r: R8, b3: u8)
        requires
            old(bus).wf(),
            old(self).opcode != Opcode::HALT,
            b3 < 8,
        ensures
            final(bus).wf(),
            final(bus).mcycles as int == sat_add(
                old(bus).mcycles as int,
                (if r is HLaddr {
                    3int
                } else {
                    1
                }),
            ),
            final(self).regs.f == old(self).regs.f,
            r matches R8::Reg(reg) ==> final(self).regs.get8_spec(reg) as int == set_spec(
                src_value(*old(self), *old(bus), Src::R(r)),
                b3 as int,
            ) && (forall|o: Reg8| o != reg ==> final(self).regs.get8_spec(o) == old(self).regs.get8_spec(o)),
            r is HLaddr && stack_ram(hl_of(old(self).regs)) ==> final(bus).read_spec(
                hl_of(old(self).regs),
            ) == set_spec(src_value(*old(self), *old(bus), Src::R(r)), b3 as int),
            r is HLaddr ==> final(self).regs == (Registers {
                pc: final(self).regs.pc,
                ..old(self).regs
            }),
            final(self).regs.sp == old(self).regs.sp,
            final(self).ime == old(self).ime && final(self).state == old(self).state
                && final(self).glitched == old(self).glitched,
    {
        let v = self.fetch_src(bus, Src::R(r));
        let m = alu::pow2_8_exec(b3);
        let res: u8 = if v / m % 2 == 1 {
            v
        } else {
            proof {
                alu::lemma_set_then_bit(v, b3, self.regs.f);
            }
            v + m
        };
        let ghost gf = *self;
        self.write_r8_op(bus, r, res);
        let ghost cw = *self;
        let ghost ga = *bus;
        self.cycle_prefetch(bus);
        proof {
            if r is HLaddr && stack_ram(hl_of(old(self).regs)) {
                lemma_cycle_preserves_read(ga, *bus, hl_of(old(self).regs));
            }
            match r {
                R8::Reg(reg) => {
                    assert forall|o: Reg8| o != reg implies self.regs.get8_spec(o) == old(self).regs.get8_spec(o) by {
                        assert(cw.regs.get8_spec(o) == gf.regs.get8_spec(o));
                        assert(self.regs.get8_spec(o) == cw.regs.get8_spec(o));
                        assert(gf.regs.get8_spec(o) == old(self).regs.get8_spec(o));
                    }
                }
                _ => {}
            }
        }
    }

    /// Execute one CB-prefixed opcode (the prefix byte's read cycle has
    /// already happened).
    #[verifier::rlimit(100)]
    #[verifier::spinoff_prover]
    pub fn execute_cb(&mut self, bus: &mut Bus, op: CBOpcode)
        requires
            old(bus).wf(),
            old(self).opcode != Opcode::HALT,
        ensures
            final(bus).wf(),
            final(bus).mcycles as int == sat_add(old(bus).mcycles as int, cb_duration(op)),
            final(self).ime == old(self).ime && final(self).state == old(self).state
                && final(self).glitched == old(self).glitched,
    {
        match op {
            CBOpcode::RLC { r8 } => self.cb_rot(bus, 0, r8),
            CBOpcode::RRC { r8 } => self.cb_rot(bus, 1, r8),
            CBOpcode::RL { r8 } => self.cb_rot(bus, 2, r8),
            CBOpcode::RR { r8 } => self.cb_rot(bus, 3, r8),
            CBOpcode::SLA { r8 } => self.cb_rot(bus, 4, r8),
            CBOpcode::SRA { r8 } => self.cb_rot(bus, 5, r8),
            CBOpcode::SWAP { r8 } => self.cb_rot(bus, 6, r8),
            CBOpcode::SRL { r8 } => self.cb_rot(bus, 7, r8),
            CBOpcode::BIT { b3, r8 } => self.bit(bus, r8, b3 % 8),
            CBOpcode::RES { b3, r8 } => self.res(bus, r8, b3 % 8),
            CBOpcode::SET { b3, r8 } => self.set(bus, r8, b3 % 8),
        }
    }

    /// The `$CB` prefix: read the second opcode byte and run it.
    pub fn cb_prefix(&mut self, bus: &mut Bus)
        requires
            old(bus).wf(),
            old(self).opcode != Opcode::HALT,
        ensures
            final(bus).wf(),
            sat_add(old(bus).mcycles as int, 2) <= final(bus).mcycles as int <= sat_add(
                old(bus).mcycles as int,
                4,
            ),
            final(self).ime == old(self).ime && final(self).state == old(self).state
                && final(self).glitched == old(self).glitched,
    {
        let b = self.cycle_read_pc(bus);
        let op = CBOpcode::lookup(b);
        self.execute_cb(bus, op);
    }

    /// Execute one primary opcode.  Every non-prefix opcode consumes
    /// exactly its documented M-cycle count (given the flags for the
    /// conditional forms); `STOP`'s glitched corner consumes none.
    #[verifier::rlimit(100)]
    #[verifier::spinoff_prover]
    pub fn execute(&mut self, bus: &mut Bus, op: Opcode)
        requires
            old(bus).wf(),
            op == old(self).opcode,
        ensures
            final(bus).wf(),
            op != Opcode::PREFIX && op != Opcode::STOP ==> final(bus).mcycles as int == sat_add(
                old(bus).mcycles as int,
                primary_duration(op, old(self).regs.f),
            ),
            op == Opcode::PREFIX ==> sat_add(old(bus).mcycles as int, 2) <= final(bus).mcycles as int <= sat_add(old(bus).mcycles as int, 4),
            op == Opcode::STOP ==> final(bus).mcycles as int <= sat_add(old(bus).mcycles as int, 2),
            op != Opcode::PREFIX ==> execute_effect(*old(self), *old(bus), *final(self), *final(bus), op),
            !(op == Opcode::DI || op == Opcode::EI || op == Opcode::RETI) ==> final(self).ime
                == old(self).ime,
            !(op == Opcode::HALT || op == Opcode::STOP) ==> final(self).state == old(self).state,
            !(op == Opcode::INVALID || op == Opcode::STOP) ==> final(self).glitched == old(self).glitched,
    {
        match op {
            Opcode::NOP => {
                self.cycle_prefetch(bus);
                return ;
            }
            Opcode::LD_r16_imm16 { dest } => {
                let d = if matches!(dest, Reg16::AF) {
                    Reg16::SP
                } else {
                    dest
                };
                self.ld16(bus, d);
                return ;
            }
            Opcode::LD_r16mem_a { r16mem } => {
                self.ld_r16mem_a(bus, r16mem);
                return ;
            }
            Opcode::LD_a_r16mem { r16mem } => {
                self.ld_a_r16mem(bus, r16mem);
                return ;
            }
            Opcode::LD_imm16_sp => {
                self.ld_imm16_sp(bus);
                return ;
            }
            Opcode::INC_r16 { r16 } => {
                let d = if matches!(r16, Reg16::AF) {
                    Reg16::SP
                } else {
                    r16
                };
                self.inc16(bus, d);
                return ;
            }
            Opcode::DEC_r16 { r16 } => {
                let d = if matches!(r16, Reg16::AF) {
                    Reg16::SP
                } else {
                    r16
                };
                self.dec16(bus, d);
                return ;
            }
            Opcode::ADD_hl_r16 { r16 } => {
                let d = if matches!(r16, Reg16::AF) {
                    Reg16::SP
                } else {
                    r16
                };
                self.add_hl(bus, d);
                return ;
            }
            Opcode::INC_r8 { r8 } => {
                self.inc(bus, r8);
                return ;
            }
            Opcode::DEC_r8 { r8 } => {
                self.dec(bus, r8);
                return ;
            }
            Opcode::LD_r8_imm8 { r8 } => {
                self.ld8(bus, r8, Src::Imm);
                return ;
            }
            Opcode::RLCA => {
                self.rlca(bus);
                return ;
            }
            Opcode::RRCA => {
                self.rrca(bus);
                return ;
            }
            Opcode::RLA => {
                self.rla(bus);
                return ;
            }
            Opcode::RRA => {
                self.rra(bus);
                return ;
            }
            Opcode::DAA => {
                self.daa(bus);
                return ;
            }
            Opcode::CPL => {
                self.cpl(bus);
                return ;
            }
            Opcode::SCF => {
                self.scf(bus);
                return ;
            }
            Opcode::CCF => {
                self.ccf(bus);
                return ;
            }
            Opcode::JR_imm8 => {
                self.jr(bus, None);
                return ;
            }
            Opcode::JR_cond_imm8 { cond } => {
                self.jr(bus, Some(cond));
                return ;
            }
            Opcode::STOP => {
                self.stop(bus);
                return ;
            }
            Opcode::LD_r8_r8 { dest, src } => {
                if dest == src {
                    self.cycle_prefetch(bus);
                } else {
                    self.ld8(bus, dest, Src::R(src));
                }
                return ;
            }
            Opcode::HALT => {
                self.halt(bus);
                return ;
            }
            Opcode::ADD_a_r8 { .. } | Opcode::ADC_a_r8 { .. } | Opcode::SUB_a_r8 {
                ..
            } | Opcode::SBC_a_r8 { .. } | Opcode::AND_a_r8 { .. } | Opcode::XOR_a_r8 {
                ..
            } | Opcode::OR_a_r8 { .. } | Opcode::CP_a_r8 { .. } | Opcode::ADD_a_imm8
                | Opcode::ADC_a_imm8 | Opcode::SUB_a_imm8 | Opcode::SBC_a_imm8
                | Opcode::AND_a_imm8 | Opcode::XOR_a_imm8 | Opcode::OR_a_imm8
                | Opcode::CP_a_imm8 => {
                self.execute_alu(bus, op);
                return ;
            }
            _ => {
                self.execute_tail(bus, op);
                return ;
            }
        }
    }


    /// The arithmetic/logic half of the primary dispatch.
    #[verifier::rlimit(100)]
    #[verifier::spinoff_prover]
    fn execute_alu(&mut self, bus: &mut Bus, op: Opcode)
        requires
            old(bus).wf(),
            op == old(self).opcode,
            alu_op(op),
        ensures
            final(bus).wf(),
            final(bus).mcycles as int == sat_add(
                old(bus).mcycles as int,
                primary_duration(op, old(self).regs.f),
            ),
            execute_effect(*old(self), *old(bus), *final(self), *final(bus), op),
            final(self).ime == old(self).ime,
            final(self).state == old(self).state,
            final(self).glitched == old(self).glitched,
    {
        match op {
            Opcode::ADD_a_r8 { r8 } => {
                self.add(bus, Src::R(r8));
                return ;
            }
            Opcode::ADC_a_r8 { r8 } => {
                self.adc(bus, Src::R(r8));
                return ;
            }
            Opcode::SUB_a_r8 { r8 } => {
                self.sub(bus, Src::R(r8));
                return ;
            }
            Opcode::SBC_a_r8 { r8 } => {
                self.sbc(bus, Src::R(r8));
                return ;
            }
            Opcode::AND_a_r8 { r8 } => {
                self.and(bus, Src::R(r8));
                return ;
            }
            Opcode::XOR_a_r8 { r8 } => {
                self.xor(bus, Src::R(r8));
                return ;
            }
            Opcode::OR_a_r8 { r8 } => {
                self.or(bus, Src::R(r8));
                return ;
            }
            Opcode::CP_a_r8 { r8 } => {
                self.cp(bus, Src::R(r8));
                return ;
            }
            Opcode::ADD_a_imm8 => {
                self.add(bus, Src::Imm);
                return ;
            }
            Opcode::ADC_a_imm8 => {
                self.adc(bus, Src::Imm);
                return ;
            }
            Opcode::SUB_a_imm8 => {
                self.sub(bus, Src::Imm);
                return ;
            }
            Opcode::SBC_a_imm8 => {
                self.sbc(bus, Src::Imm);
                return ;
            }
            Opcode::AND_a_imm8 => {
                self.and(bus, Src::Imm);
                return ;
            }
            Opcode::XOR_a_imm8 => {
                self.xor(bus, Src::Imm);
                return ;
            }
            Opcode::OR_a_imm8 => {
                self.or(bus, Src::Imm);
                return ;
            }
            Opcode::CP_a_imm8 => {
                self.cp(bus, Src::Imm);
                return ;
            }
            _ => {
                proof {
                    assert(false);
                }
            }
        }
    }

    /// The second half of the primary dispatch: the control-flow, stack,
    /// high-page and miscellaneous opcodes.
    #[verifier::rlimit(100)]
    #[verifier::spinoff_prover]
    fn execute_tail(&mut self, bus: &mut Bus, op: Opcode)
        requires
            old(bus).wf(),
            op == old(self).opcode,
            tail_op(op),
        ensures
            final(bus).wf(),
            op != Opcode::PREFIX && op != Opcode::STOP ==> final(bus).mcycles as int == sat_add(
                old(bus).mcycles as int,
                primary_duration(op, old(self).regs.f),
            ),
            op == Opcode::PREFIX ==> sat_add(old(bus).mcycles as int, 2) <= final(bus).mcycles as int <= sat_add(old(bus).mcycles as int, 4),
            op != Opcode::PREFIX ==> execute_effect(*old(self), *old(bus), *final(self), *final(bus), op),
            !(op == Opcode::DI || op == Opcode::EI || op == Opcode::RETI) ==> final(self).ime
                == old(self).ime,
            final(self).state == old(self).state,
            op != Opcode::INVALID ==> final(self).glitched == old(self).glitched,
    {
        match op {
            Opcode::RET_cond { cond } => {
                self.ret(bus, Some(cond));
                return ;
            }
            Opcode::RET => {
                self.ret(bus, None);
                return ;
            }
            Opcode::RETI => {
                self.reti(bus);
                return ;
            }
            Opcode::JP_cond_imm16 { cond } => {
                self.jp(bus, Some(cond));
                return ;
            }
            Opcode::JP_imm16 => {
                self.jp(bus, None);
                return ;
            }
            Opcode::JP_hl => {
                self.jp_hl(bus);
                return ;
            }
            Opcode::CALL_cond_imm16 { cond } => {
                let addr = self.fetch_imm16(bus);
                let taken = self.check_cond(cond);
                self.call_to(bus, addr, taken, 0);
                return ;
            }
            Opcode::CALL_imm16 => {
                let addr = self.fetch_imm16(bus);
                self.call_to(bus, addr, true, 0);
                return ;
            }
            Opcode::RST { tgt3 } => {
                let addr = (tgt3 % 8) as u16 * 8;
                self.call_to(bus, addr, true, 0);
                return ;
            }
            Opcode::POP { r16stk } => {
                if matches!(r16stk, Reg16::SP) {
                    self.pop(bus, Reg16::AF);
                } else {
                    self.pop(bus, r16stk);
                }
                return ;
            }
            Opcode::PUSH { r16stk } => {
                self.push(bus, r16stk);
                return ;
            }
            Opcode::PREFIX => {
                self.cb_prefix(bus);
                return ;
            }
            Opcode::LDH_c_a => {
                self.ldh_c_a(bus);
                return ;
            }
            Opcode::LDH_imm8_a => {
                self.ldh_imm8_a(bus);
                return ;
            }
            Opcode::LD_imm16_a => {
                self.ld_imm16_a(bus);
                return ;
            }
            Opcode::LDH_a_c => {
                self.ldh_a_c(bus);
                return ;
            }
            Opcode::LDH_a_imm8 => {
                self.ldh_a_imm8(bus);
                return ;
            }
            Opcode::LD_a_imm16 => {
                self.ld_a_imm16(bus);
                return ;
            }
            Opcode::ADD_sp_imm8 => {
                self.add_sp_imm8(bus);
                return ;
            }
            Opcode::LD_hl_spimm8 => {
                self.ld_hl_spimm8(bus);
                return ;
            }
            Opcode::LD_sp_hl => {
                self.ld_sp_hl(bus);
                return ;
            }
            Opcode::DI => {
                self.di(bus);
                return ;
            }
            Opcode::EI => {
                self.ei(bus);
                return ;
            }
            Opcode::INVALID => {
                self.glitched = true;
                return ;
            }            _ => {
                proof {
                    assert(false);
                }
            }
        }
    }

    /// One CPU step: one instruction, one interrupt dispatch, or one
    /// idle cycle of a waiting state.  Peripherals advance in lockstep
    /// through the bus cycles.
    pub fn step(&mut self, bus: &mut Bus)
        requires
            old(bus).wf(),
        ensures
            final(bus).wf(),
            step_rel(*old(self), *old(bus), *final(self), *final(bus)),
    {
        if self.glitched {
            bus.cycle();
            return ;
        }
        if self.state.is_stop() {
            bus.tick(true);
            if bus.joypad.any_selected_pressed() {
                self.state.reset();
            }
            return ;
        }
        if self.rqst.has_interrupt() {
            self.service_interrupt(bus);
            return ;
        }
        if self.state.is_halt() {
            bus.cycle();
            let pending = bus.sample_interrupts();
            if pending.has_interrupt() {
                self.state.reset();
                if self.ime {
                    self.rqst = pending;
                }
            }
            if self.state.dec_halt_timer() {
                self.state.reset();
                bus.toggle_speed();
            }
            return ;
        }
        let op = self.opcode;
        self.execute(bus, op);
    }
}



/// What one CPU step does, by the control state it starts in: a stopped
/// core only polls the joypad; a latched interrupt request dispatches
/// (five cycles, IME off, return address pushed, handler vector); a
/// halted core idles one cycle, waking on a pending interrupt or at the
/// end of a speed-switch countdown; otherwise the prefetched opcode
/// executes with its documented duration and `execute_effect`.
pub open spec fn step_rel(c: Cpu, b: Bus, cc: Cpu, bb: Bus) -> bool {
    if c.glitched {
        cc == c
    } else if c.state == CPUState::Stop {
        &&& cc.regs == c.regs
        &&& cc.state == (if !crate::joypad::p1_line_high(bb.joypad) {
            CPUState::Normal
        } else {
            c.state
        })
        &&& cc.ime == c.ime && cc.glitched == c.glitched && cc.opcode == c.opcode
    } else if highest_priority_spec(c.rqst) is Some {
        &&& bb.mcycles as int == sat_add(b.mcycles as int, 5)
        &&& !cc.ime
        &&& cc.state == CPUState::Normal
        &&& cc.regs.sp == c.regs.sp.wrapping_sub(2)
        &&& (exists|pend: InterruptFlags| #[trigger] dispatch_pick(pend, cc.instr_addr as int))
        &&& cc.regs.pc == cc.instr_addr.wrapping_add(1)
        &&& (stack_ram(c.regs.sp.wrapping_sub(1) as int) && stack_ram(
            c.regs.sp.wrapping_sub(2) as int,
        ) ==> bb.read_spec(c.regs.sp.wrapping_sub(1) as int) == c.regs.pc.wrapping_sub(
            1,
        ) as int / 256 && bb.read_spec(c.regs.sp.wrapping_sub(2) as int) == c.regs.pc.wrapping_sub(
            1,
        ) as int % 256)
    } else {
        match c.state {
            CPUState::Halt(t) => {
                let pend = highest_priority_spec(if_and(bb.iflags, bb.ie)) is Some;
                &&& bb.mcycles as int == sat_add(b.mcycles as int, 1)
                &&& cc.regs == c.regs
                &&& cc.state == (if pend {
                    CPUState::Normal
                } else if t == 1 {
                    CPUState::Normal
                } else if t > 1 {
                    CPUState::Halt((t - 1) as u32)
                } else {
                    c.state
                })
                &&& cc.rqst == (if pend && c.ime {
                    if_and(bb.iflags, bb.ie)
                } else {
                    c.rqst
                })
                &&& cc.ime == c.ime && cc.glitched == c.glitched
            },
            _ => {
                &&& (c.opcode != Opcode::PREFIX && c.opcode != Opcode::STOP
                    ==> bb.mcycles as int == sat_add(
                    b.mcycles as int,
                    primary_duration(c.opcode, c.regs.f),
                ))
                &&& (c.opcode != Opcode::PREFIX ==> execute_effect(c, b, cc, bb, c.opcode))
            },
        }
    }
}

/// The arithmetic/logic opcodes over the accumulator.
pub open spec fn alu_op(op: Opcode) -> bool {
    match op {
        Opcode::ADD_a_r8 { .. } => true,
        Opcode::ADC_a_r8 { .. } => true,
        Opcode::SUB_a_r8 { .. } => true,
        Opcode::SBC_a_r8 { .. } => true,
        Opcode::AND_a_r8 { .. } => true,
        Opcode::XOR_a_r8 { .. } => true,
        Opcode::OR_a_r8 { .. } => true,
        Opcode::CP_a_r8 { .. } => true,
        Opcode::ADD_a_imm8 => true,
        Opcode::ADC_a_imm8 => true,
        Opcode::SUB_a_imm8 => true,
        Opcode::SBC_a_imm8 => true,
        Opcode::AND_a_imm8 => true,
        Opcode::XOR_a_imm8 => true,
        Opcode::OR_a_imm8 => true,
        Opcode::CP_a_imm8 => true,
        _ => false,
    }
}

/// The opcodes the dispatch's second half handles.
pub open spec fn tail_op(op: Opcode) -> bool {
    match op {
        Opcode::RET_cond { .. } => true,
        Opcode::RET => true,
        Opcode::RETI => true,
        Opcode::JP_cond_imm16 { .. } => true,
        Opcode::JP_imm16 => true,
        Opcode::JP_hl => true,
        Opcode::CALL_cond_imm16 { .. } => true,
        Opcode::CALL_imm16 => true,
        Opcode::RST { .. } => true,
        Opcode::POP { .. } => true,
        Opcode::PUSH { .. } => true,
        Opcode::PREFIX => true,
        Opcode::LDH_c_a => true,
        Opcode::LDH_imm8_a => true,
        Opcode::LD_imm16_a => true,
        Opcode::LDH_a_c => true,
        Opcode::LDH_a_imm8 => true,
        Opcode::LD_a_imm16 => true,
        Opcode::ADD_sp_imm8 => true,
        Opcode::LD_hl_spimm8 => true,
        Opcode::LD_sp_hl => true,
        Opcode::DI => true,
        Opcode::EI => true,
        Opcode::INVALID => true,
        _ => false,
    }
}

/// The per-opcode effect of `execute`: for each primary opcode, how the
/// machine after the instruction relates to the machine before it, in
/// terms of the same ALU and bus specifications the per-mnemonic
/// functions ensure.  Memory effects are stated where the operand sits
/// in plain RAM (`stack_ram`) and immediate words where the operand
/// bytes are cycle-stable (`code_stable`); the flag, register, pointer
/// and control effects are unconditional.
pub open spec fn execute_effect(c: Cpu, b: Bus, cc: Cpu, bb: Bus, op: Opcode) -> bool {
    match op {
        Opcode::NOP => cc.regs == (Registers { pc: cc.regs.pc, ..c.regs }),
        Opcode::LD_r16_imm16 { dest } => {
            let d = if dest == Reg16::AF {
                Reg16::SP
            } else {
                dest
            };
            &&& (code_stable(c.regs.pc.wrapping_add(1) as int) ==> cc.regs.get16_spec(d)
                == b.read_spec(c.regs.pc as int) + 256 * b.read_spec(
                c.regs.pc.wrapping_add(1) as int,
            ))
            &&& cc.regs.f == c.regs.f
            &&& cc.regs.a == c.regs.a
        },
        Opcode::LD_r16mem_a { r16mem } => {
            &&& (stack_ram(r16mem_target(c.regs, r16mem)) ==> bb.read_spec(
                r16mem_target(c.regs, r16mem),
            ) == c.regs.a as int)
            &&& (r16mem is HLi ==> hl_of(cc.regs) == (hl_of(c.regs) + 1) % 0x10000)
            &&& (r16mem is HLd ==> hl_of(cc.regs) == (hl_of(c.regs) + 0xFFFF) % 0x10000)
            &&& cc.regs.f == c.regs.f
            &&& cc.regs.a == c.regs.a
        },
        Opcode::LD_a_r16mem { r16mem } => {
            &&& cc.regs.a as int == b.read_spec(r16mem_target(c.regs, r16mem))
            &&& (r16mem is HLi ==> hl_of(cc.regs) == (hl_of(c.regs) + 1) % 0x10000)
            &&& (r16mem is HLd ==> hl_of(cc.regs) == (hl_of(c.regs) + 0xFFFF) % 0x10000)
            &&& cc.regs.f == c.regs.f
        },
        Opcode::LD_imm16_sp => {
            let target = b.read_spec(c.regs.pc as int) + 256 * b.read_spec(
                c.regs.pc.wrapping_add(1) as int,
            );
            code_stable(c.regs.pc.wrapping_add(1) as int) && stack_ram(target) && stack_ram(
                (target as u16).wrapping_add(1) as int,
            ) ==> bb.read_spec(target) == c.regs.sp as int % 256 && bb.read_spec(
                (target as u16).wrapping_add(1) as int,
            ) == c.regs.sp as int / 256
        },
        Opcode::INC_r16 { r16 } => {
            let d = if r16 == Reg16::AF {
                Reg16::SP
            } else {
                r16
            };
            cc.regs.get16_spec(d) == (c.regs.get16_spec(d) + 1) % 0x10000 && cc.regs.f == c.regs.f
        },
        Opcode::DEC_r16 { r16 } => {
            let d = if r16 == Reg16::AF {
                Reg16::SP
            } else {
                r16
            };
            cc.regs.get16_spec(d) == (c.regs.get16_spec(d) + 0xFFFF) % 0x10000 && cc.regs.f
                == c.regs.f
        },
        Opcode::ADD_hl_r16 { r16 } => {
            let d = if r16 == Reg16::AF {
                Reg16::SP
            } else {
                r16
            };
            let r = add16_spec(hl_of(c.regs), c.regs.get16_spec(d), c.regs.f);
            hl_of(cc.regs) == r.0 && cc.regs.f == r.1
        },
        Opcode::INC_r8 { r8 } => {
            let v = src_value(c, b, Src::R(r8));
            &&& cc.regs.f == inc_spec(v, c.regs.f).1
            &&& (r8 matches R8::Reg(reg) ==> cc.regs.get8_spec(reg) as int == inc_spec(
                v,
                c.regs.f,
            ).0)
            &&& (r8 is HLaddr && stack_ram(hl_of(c.regs)) ==> bb.read_spec(hl_of(c.regs))
                == inc_spec(v, c.regs.f).0)
        },
        Opcode::DEC_r8 { r8 } => {
            let v = src_value(c, b, Src::R(r8));
            &&& cc.regs.f == dec_spec(v, c.regs.f).1
            &&& (r8 matches R8::Reg(reg) ==> cc.regs.get8_spec(reg) as int == dec_spec(
                v,
                c.regs.f,
            ).0)
            &&& (r8 is HLaddr && stack_ram(hl_of(c.regs)) ==> bb.read_spec(hl_of(c.regs))
                == dec_spec(v, c.regs.f).0)
        },
        Opcode::LD_r8_imm8 { r8 } => {
            &&& (r8 matches R8::Reg(reg) ==> cc.regs.get8_spec(reg) as int == src_value(
                c,
                b,
                Src::Imm,
            ))
            &&& (r8 is HLaddr && stack_ram(hl_of(c.regs)) ==> bb.read_spec(hl_of(c.regs))
                == src_value(c, b, Src::Imm))
            &&& cc.regs.f == c.regs.f
        },
        Opcode::RLCA => cc.regs.a as int == rlc_spec(c.regs.a as int).0 && cc.regs.f == (Flags {
            z: false,
            ..rlc_spec(c.regs.a as int).1
        }),
        Opcode::RRCA => cc.regs.a as int == rrc_spec(c.regs.a as int).0 && cc.regs.f == (Flags {
            z: false,
            ..rrc_spec(c.regs.a as int).1
        }),
        Opcode::RLA => cc.regs.a as int == rl_spec(c.regs.a as int, c.regs.f.c).0 && cc.regs.f
            == (Flags { z: false, ..rl_spec(c.regs.a as int, c.regs.f.c).1 }),
        Opcode::RRA => cc.regs.a as int == rr_spec(c.regs.a as int, c.regs.f.c).0 && cc.regs.f
            == (Flags { z: false, ..rr_spec(c.regs.a as int, c.regs.f.c).1 }),
        Opcode::DAA => cc.regs.a as int == daa_spec(c.regs.a as int, c.regs.f).0 && cc.regs.f
            == daa_spec(c.regs.a as int, c.regs.f).1,
        Opcode::CPL => cc.regs.a as int == 255 - c.regs.a as int && cc.regs.f == (Flags {
            n: true,
            h: true,
            ..c.regs.f
        }),
        Opcode::SCF => cc.regs.f == (Flags { n: false, h: false, c: true, ..c.regs.f })
            && cc.regs.a == c.regs.a,
        Opcode::CCF => cc.regs.f == (Flags { n: false, h: false, c: !c.regs.f.c, ..c.regs.f })
            && cc.regs.a == c.regs.a,
        Opcode::JR_imm8 => jr_effect(c, b, cc, true),
        Opcode::JR_cond_imm8 { cond } => jr_effect(c, b, cc, cond_holds(cond, c.regs.f)),
        Opcode::STOP => true,
        Opcode::LD_r8_r8 { dest, src } => if dest == src {
            cc.regs == (Registers { pc: cc.regs.pc, ..c.regs })
        } else {
            &&& (dest matches R8::Reg(reg) ==> cc.regs.get8_spec(reg) as int == src_value(
                c,
                b,
                Src::R(src),
            ))
            &&& (dest is HLaddr && stack_ram(hl_of(c.regs)) ==> bb.read_spec(hl_of(c.regs))
                == src_value(c, b, Src::R(src)))
            &&& cc.regs.f == c.regs.f
        },
        Opcode::HALT => {
            let pending = highest_priority_spec(if_and(b.iflags, b.ie)) is Some;
            cc.state == (if !c.ime && pending {
                c.state
            } else {
                CPUState::Halt(0u32)
            }) && cc.regs == (Registers { pc: cc.regs.pc, ..c.regs })
        },
        Opcode::ADD_a_r8 { r8 } => alu_a_effect(c, b, cc, add_spec(
            c.regs.a as int,
            src_value(c, b, Src::R(r8)),
        )),
        Opcode::ADC_a_r8 { r8 } => alu_a_effect(c, b, cc, adc_spec(
            c.regs.a as int,
            src_value(c, b, Src::R(r8)),
            c.regs.f.c,
        )),
        Opcode::SUB_a_r8 { r8 } => alu_a_effect(c, b, cc, sub_spec(
            c.regs.a as int,
            src_value(c, b, Src::R(r8)),
        )),
        Opcode::SBC_a_r8 { r8 } => alu_a_effect(c, b, cc, sbc_spec(
            c.regs.a as int,
            src_value(c, b, Src::R(r8)),
            c.regs.f.c,
        )),
        Opcode::AND_a_r8 { r8 } => cc.regs.a == (c.regs.a & (src_value(c, b, Src::R(r8)) as u8))
            && cc.regs.f == and_flags(cc.regs.a as int),
        Opcode::XOR_a_r8 { r8 } => cc.regs.a == (c.regs.a ^ (src_value(c, b, Src::R(r8)) as u8))
            && cc.regs.f == logic_flags(cc.regs.a as int),
        Opcode::OR_a_r8 { r8 } => cc.regs.a == (c.regs.a | (src_value(c, b, Src::R(r8)) as u8))
            && cc.regs.f == logic_flags(cc.regs.a as int),
        Opcode::CP_a_r8 { r8 } => cc.regs.a == c.regs.a && cc.regs.f == sub_spec(
            c.regs.a as int,
            src_value(c, b, Src::R(r8)),
        ).1,
        Opcode::ADD_a_imm8 => alu_a_effect(c, b, cc, add_spec(
            c.regs.a as int,
            src_value(c, b, Src::Imm),
        )),
        Opcode::ADC_a_imm8 => alu_a_effect(c, b, cc, adc_spec(
            c.regs.a as int,
            src_value(c, b, Src::Imm),
            c.regs.f.c,
        )),
        Opcode::SUB_a_imm8 => alu_a_effect(c, b, cc, sub_spec(
            c.regs.a as int,
            src_value(c, b, Src::Imm),
        )),
        Opcode::SBC_a_imm8 => alu_a_effect(c, b, cc, sbc_spec(
            c.regs.a as int,
            src_value(c, b, Src::Imm),
            c.regs.f.c,
        )),
        Opcode::AND_a_imm8 => cc.regs.a == (c.regs.a & (src_value(c, b, Src::Imm) as u8))
            && cc.regs.f == and_flags(cc.regs.a as int),
        Opcode::XOR_a_imm8 => cc.regs.a == (c.regs.a ^ (src_value(c, b, Src::Imm) as u8))
            && cc.regs.f == logic_flags(cc.regs.a as int),
        Opcode::OR_a_imm8 => cc.regs.a == (c.regs.a | (src_value(c, b, Src::Imm) as u8))
            && cc.regs.f == logic_flags(cc.regs.a as int),
        Opcode::CP_a_imm8 => cc.regs.a == c.regs.a && cc.regs.f == sub_spec(
            c.regs.a as int,
            src_value(c, b, Src::Imm),
        ).1,
        Opcode::RET_cond { cond } => ret_effect(c, b, cc, cond_holds(cond, c.regs.f)),
        Opcode::RET => ret_effect(c, b, cc, true),
        Opcode::RETI => ret_effect(c, b, cc, true) && cc.ime,
        Opcode::JP_cond_imm16 { cond } => jp_effect(c, b, cc, cond_holds(cond, c.regs.f)),
        Opcode::JP_imm16 => jp_effect(c, b, cc, true),
        Opcode::JP_hl => cc.instr_addr as int == hl_of(c.regs) && cc.regs == (Registers {
            pc: cc.regs.pc,
            ..c.regs
        }),
        Opcode::CALL_cond_imm16 { cond } => call_effect(c, b, cc, bb, cond_holds(
            cond,
            c.regs.f,
        )),
        Opcode::CALL_imm16 => call_effect(c, b, cc, bb, true),
        Opcode::RST { tgt3 } => {
            &&& cc.instr_addr as int == (tgt3 as int % 8) * 8
            &&& cc.regs.sp == c.regs.sp.wrapping_sub(2)
            &&& (stack_ram(c.regs.sp.wrapping_sub(1) as int) && stack_ram(
                c.regs.sp.wrapping_sub(2) as int,
            ) ==> bb.read_spec(c.regs.sp.wrapping_sub(1) as int) == c.regs.pc as int / 256
                && bb.read_spec(c.regs.sp.wrapping_sub(2) as int) == c.regs.pc as int % 256)
        },
        Opcode::POP { r16stk } => {
            let d = if r16stk == Reg16::SP {
                Reg16::AF
            } else {
                r16stk
            };
            &&& cc.regs.sp == c.regs.sp.wrapping_add(2)
            &&& (d != Reg16::AF && stack_ram(c.regs.sp.wrapping_add(1) as int)
                ==> cc.regs.get16_spec(d) == b.read_spec(c.regs.sp as int) + 256 * b.read_spec(
                c.regs.sp.wrapping_add(1) as int,
            ))
            &&& (d == Reg16::AF && stack_ram(c.regs.sp.wrapping_add(1) as int)
                ==> cc.regs.a as int == b.read_spec(c.regs.sp.wrapping_add(1) as int) && cc.regs.f
                == crate::regs::flags_of_byte(b.read_spec(c.regs.sp as int)))
        },
        Opcode::PUSH { r16stk } => {
            &&& cc.regs.sp == c.regs.sp.wrapping_sub(2)
            &&& (stack_ram(c.regs.sp.wrapping_sub(1) as int) && stack_ram(
                c.regs.sp.wrapping_sub(2) as int,
            ) ==> bb.read_spec(c.regs.sp.wrapping_sub(1) as int) == c.regs.get16_spec(r16stk)
                / 256 && bb.read_spec(c.regs.sp.wrapping_sub(2) as int) == c.regs.get16_spec(
                r16stk,
            ) % 256)
        },
        Opcode::PREFIX => true,
        Opcode::LDH_c_a => stack_ram(0xFF00 + c.regs.c as int) ==> bb.read_spec(
            0xFF00 + c.regs.c as int,
        ) == c.regs.a as int,
        Opcode::LDH_imm8_a => {
            let target = 0xFF00 + b.read_spec(c.regs.pc as int);
            stack_ram(target) ==> bb.read_spec(target) == c.regs.a as int
        },
        Opcode::LD_imm16_a => {
            let target = b.read_spec(c.regs.pc as int) + 256 * b.read_spec(
                c.regs.pc.wrapping_add(1) as int,
            );
            code_stable(c.regs.pc.wrapping_add(1) as int) && stack_ram(target) ==> bb.read_spec(
                target,
            ) == c.regs.a as int
        },
        Opcode::LDH_a_c => cc.regs.a as int == b.read_spec(0xFF00 + c.regs.c as int),
        Opcode::LDH_a_imm8 => {
            let target = 0xFF00 + b.read_spec(c.regs.pc as int);
            stack_ram(target) ==> cc.regs.a as int == b.read_spec(target)
        },
        Opcode::LD_a_imm16 => {
            let target = b.read_spec(c.regs.pc as int) + 256 * b.read_spec(
                c.regs.pc.wrapping_add(1) as int,
            );
            code_stable(c.regs.pc.wrapping_add(1) as int) && stack_ram(target)
                ==> cc.regs.a as int == b.read_spec(target)
        },
        Opcode::ADD_sp_imm8 => {
            let r = addsp_spec(c.regs.sp as int, src_value(c, b, Src::Imm));
            cc.regs.sp as int == r.0 && cc.regs.f == r.1
        },
        Opcode::LD_hl_spimm8 => {
            let r = addsp_spec(c.regs.sp as int, src_value(c, b, Src::Imm));
            hl_of(cc.regs) == r.0 && cc.regs.f == r.1 && cc.regs.sp == c.regs.sp
        },
        Opcode::LD_sp_hl => cc.regs.sp as int == hl_of(c.regs) && cc.regs.f == c.regs.f,
        Opcode::DI => !cc.ime && cc.regs == (Registers { pc: cc.regs.pc, ..c.regs }),
        Opcode::EI => cc.ime && cc.regs == (Registers { pc: cc.regs.pc, ..c.regs }),
        Opcode::INVALID => cc == (Cpu { glitched: true, ..c }) && bb == b,
    }
}

/// The shared effect of the accumulator ALU forms: `A` and the flags
/// take the spec result.
pub open spec fn alu_a_effect(c: Cpu, b: Bus, cc: Cpu, r: (int, Flags)) -> bool {
    cc.regs.a as int == r.0 && cc.regs.f == r.1 && cc.regs == (Registers {
        a: cc.regs.a,
        f: cc.regs.f,
        pc: cc.regs.pc,
        ..c.regs
    })
}

/// The effect of a relative jump under a given taken-ness.
pub open spec fn jr_effect(c: Cpu, b: Bus, cc: Cpu, taken: bool) -> bool {
    let off = src_value(c, b, Src::Imm);
    let fallthrough = c.regs.pc.wrapping_add(1);
    let dest = if taken {
        ((fallthrough as int + alu::signed8(off)) % 0x10000 + 0x10000) % 0x10000
    } else {
        fallthrough as int
    };
    cc.instr_addr as int == dest && cc.regs.f == c.regs.f
}

/// The effect of an absolute jump under a given taken-ness.
pub open spec fn jp_effect(c: Cpu, b: Bus, cc: Cpu, taken: bool) -> bool {
    &&& (taken && code_stable(c.regs.pc.wrapping_add(1) as int) ==> cc.instr_addr as int
        == b.read_spec(c.regs.pc as int) + 256 * b.read_spec(c.regs.pc.wrapping_add(1) as int))
    &&& (!taken ==> cc.instr_addr == c.regs.pc.wrapping_add(2))
    &&& cc.regs.f == c.regs.f
}

/// The effect of a return under a given taken-ness.
pub open spec fn ret_effect(c: Cpu, b: Bus, cc: Cpu, taken: bool) -> bool {
    &&& (taken ==> cc.regs.sp == c.regs.sp.wrapping_add(2))
    &&& (!taken ==> cc.regs.sp == c.regs.sp && cc.instr_addr == c.regs.pc)
    &&& (taken && stack_ram(c.regs.sp as int) && stack_ram(c.regs.sp.wrapping_add(1) as int)
        ==> cc.instr_addr as int == b.read_spec(c.regs.sp as int) + 256 * b.read_spec(
        c.regs.sp.wrapping_add(1) as int,
    ))
    &&& cc.regs.f == c.regs.f
}

/// The effect of a call under a given taken-ness: the return address
/// (past the three instruction bytes) is pushed and execution continues
/// at the immediate target.
pub open spec fn call_effect(c: Cpu, b: Bus, cc: Cpu, bb: Bus, taken: bool) -> bool {
    let ret = c.regs.pc.wrapping_add(2);
    &&& (taken && code_stable(c.regs.pc.wrapping_add(1) as int) ==> cc.instr_addr as int
        == b.read_spec(c.regs.pc as int) + 256 * b.read_spec(c.regs.pc.wrapping_add(1) as int))
    &&& (taken ==> cc.regs.sp == c.regs.sp.wrapping_sub(2))
    &&& (!taken ==> cc.regs.sp == c.regs.sp && cc.instr_addr == c.regs.pc.wrapping_add(2))
    &&& (taken && stack_ram(c.regs.sp.wrapping_sub(1) as int) && stack_ram(
        c.regs.sp.wrapping_sub(2) as int,
    ) ==> bb.read_spec(c.regs.sp.wrapping_sub(1) as int) == ret as int / 256 && bb.read_spec(
        c.regs.sp.wrapping_sub(2) as int,
    ) == ret as int % 256)
    &&& cc.regs.f == c.regs.f
}

/// The result of a rotate/shift/swap row of the CB table.
pub open spec fn cb_rot_spec(k: int, v: int, cin: bool) -> (int, Flags) {
    if k == 0 {
        rlc_spec(v)
    } else if k == 1 {
        rrc_spec(v)
    } else if k == 2 {
        rl_spec(v, cin)
    } else if k == 3 {
        rr_spec(v, cin)
    } else if k == 4 {
        sla_spec(v)
    } else if k == 5 {
        sra_spec(v)
    } else if k == 6 {
        swap_spec(v)
    } else {
        srl_spec(v)
    }
}

} // verus!
