//! Opcode model: a tagged enumeration of the 256 primary and 256
//! CB-prefixed SM83 opcodes, with a pure decode function from one byte to
//! one opcode and an encode function giving each opcode's canonical byte.

use vstd::prelude::*;

use crate::regs::{Reg8, Reg16};

verus! {

/// An eight-bit operand: a plain register or the byte addressed by `HL`.
#[derive(Debug, Clone, Copy, PartialEq, Eq, Structural)]
pub enum R8 {
    Reg(Reg8),
    HLaddr,
}

/// A sixteen-bit pointer operand; the `HL` forms step `HL` after the access.
#[derive(Debug, Clone, Copy, PartialEq, Eq, Structural)]
pub enum R16mem {
    BC,
    DE,
    HLi,
    HLd,
}

/// A branch condition over the `Z` and `C` flags.
#[derive(Debug, Clone, Copy, PartialEq, Eq, Structural)]
pub enum Condition {
    NZ,
    Z,
    NC,
    C,
}

/// One primary-table opcode.
#[allow(non_camel_case_types)]
#[derive(Debug, Clone, Copy, PartialEq, Eq, Structural)]
pub enum Opcode {
    NOP,
    LD_r16_imm16 { dest: Reg16 },
    LD_r16mem_a { r16mem: R16mem },
    LD_a_r16mem { r16mem: R16mem },
    LD_imm16_sp,
    INC_r16 { r16: Reg16 },
    DEC_r16 { r16: Reg16 },
    ADD_hl_r16 { r16: Reg16 },
    INC_r8 { r8: R8 },
    DEC_r8 { r8: R8 },
    LD_r8_imm8 { r8: R8 },
    RLCA,
    RRCA,
    RLA,
    RRA,
    DAA,
    CPL,
    SCF,
    CCF,
    JR_imm8,
    JR_cond_imm8 { cond: Condition },
    STOP,
    LD_r8_r8 { dest: R8, src: R8 },
    HALT,
    ADD_a_r8 { r8: R8 },
    ADC_a_r8 { r8: R8 },
    SUB_a_r8 { r8: R8 },
    SBC_a_r8 { r8: R8 },
    AND_a_r8 { r8: R8 },
    XOR_a_r8 { r8: R8 },
    OR_a_r8 { r8: R8 },
    CP_a_r8 { r8: R8 },
    ADD_a_imm8,
    ADC_a_imm8,
    SUB_a_imm8,
    SBC_a_imm8,
    AND_a_imm8,
    XOR_a_imm8,
    OR_a_imm8,
    CP_a_imm8,
    RET_cond { cond: Condition },
    RET,
    RETI,
    JP_cond_imm16 { cond: Condition },
    JP_imm16,
    JP_hl,
    CALL_cond_imm16 { cond: Condition },
    CALL_imm16,
    RST { tgt3: u8 },
    POP { r16stk: Reg16 },
    PUSH { r16stk: Reg16 },
    PREFIX,
    LDH_c_a,
    LDH_imm8_a,
    LD_imm16_a,
    LDH_a_c,
    LDH_a_imm8,
    LD_a_imm16,
    ADD_sp_imm8,
    LD_hl_spimm8,
    LD_sp_hl,
    DI,
    EI,
    INVALID,
}

/// One CB-prefixed opcode.
#[allow(non_camel_case_types)]
#[derive(Debug, Clone, Copy, PartialEq, Eq, Structural)]
pub enum CBOpcode {
    RLC { r8: R8 },
    RRC { r8: R8 },
    RL { r8: R8 },
    RR { r8: R8 },
    SLA { r8: R8 },
    SRA { r8: R8 },
    SWAP { r8: R8 },
    SRL { r8: R8 },
    BIT { b3: u8, r8: R8 },
    RES { b3: u8, r8: R8 },
    SET { b3: u8, r8: R8 },
}

/// The eight-bit operand selected by a three-bit field.
pub open spec fn r8_of(k: int) -> R8 {
    if k == 0 {
        R8::Reg(Reg8::B)
    } else if k == 1 {
        R8::Reg(Reg8::C)
    } else if k == 2 {
        R8::Reg(Reg8::D)
    } else if k == 3 {
        R8::Reg(Reg8::E)
    } else if k == 4 {
        R8::Reg(Reg8::H)
    } else if k == 5 {
        R8::Reg(Reg8::L)
    } else if k == 6 {
        R8::HLaddr
    } else {
        R8::Reg(Reg8::A)
    }
}

/// The three-bit field selecting an eight-bit operand.
pub open spec fn r8_index(r: R8) -> int {
    match r {
        R8::Reg(Reg8::B) => 0,
        R8::Reg(Reg8::C) => 1,
        R8::Reg(Reg8::D) => 2,
        R8::Reg(Reg8::E) => 3,
        R8::Reg(Reg8::H) => 4,
        R8::Reg(Reg8::L) => 5,
        R8::HLaddr => 6,
        R8::Reg(Reg8::A) => 7,
    }
}

/// The register pair selected by a two-bit field (`SP` form).
pub open spec fn r16_of(k: int) -> Reg16 {
    if k == 0 {
        Reg16::BC
    } else if k == 1 {
        Reg16::DE
    } else if k == 2 {
        Reg16::HL
    } else {
        Reg16::SP
    }
}

pub open spec fn r16_index(r: Reg16) -> int {
    match r {
        Reg16::BC => 0,
        Reg16::DE => 1,
        Reg16::HL => 2,
        Reg16::SP => 3,
        Reg16::AF => 3,
    }
}

/// The register pair selected by a two-bit field (`AF` form, for the stack
/// opcodes).
pub open spec fn r16stk_of(k: int) -> Reg16 {
    if k == 0 {
        Reg16::BC
    } else if k == 1 {
        Reg16::DE
    } else if k == 2 {
        Reg16::HL
    } else {
        Reg16::AF
    }
}

pub open spec fn r16stk_index(r: Reg16) -> int {
    match r {
        Reg16::BC => 0,
        Reg16::DE => 1,
        Reg16::HL => 2,
        Reg16::AF => 3,
        Reg16::SP => 3,
    }
}

/// The pointer operand selected by a two-bit field.
pub open spec fn r16mem_of(k: int) -> R16mem {
    if k == 0 {
        R16mem::BC
    } else if k == 1 {
        R16mem::DE
    } else if k == 2 {
        R16mem::HLi
    } else {
        R16mem::HLd
    }
}

pub open spec fn r16mem_index(r: R16mem) -> int {
    match r {
        R16mem::BC => 0,
        R16mem::DE => 1,
        R16mem::HLi => 2,
        R16mem::HLd => 3,
    }
}

/// The condition selected by a two-bit field.
pub open spec fn cond_of(k: int) -> Condition {
    if k == 0 {
        Condition::NZ
    } else if k == 1 {
        Condition::Z
    } else if k == 2 {
        Condition::NC
    } else {
        Condition::C
    }
}

pub open spec fn cond_index(c: Condition) -> int {
    match c {
        Condition::NZ => 0,
        Condition::Z => 1,
        Condition::NC => 2,
        Condition::C => 3,
    }
}

/// Decode of one primary-table byte, as a pure function of its bit fields.
pub open spec fn decode_of(i: int) -> Opcode {
    if i < 0x40 {
        decode_block0(i)
    } else if i < 0x80 {
        if i == 0x76 {
            Opcode::HALT
        } else {
            Opcode::LD_r8_r8 { dest: r8_of(i / 8 % 8), src: r8_of(i % 8) }
        }
    } else if i < 0xC0 {
        decode_alu_r8(i / 8 % 8, r8_of(i % 8))
    } else {
        decode_block3(i)
    }
}

pub open spec fn decode_block0(i: int) -> Opcode {
    if i % 16 == 0 || i % 16 == 8 {
        if i / 8 == 0 {
            Opcode::NOP
        } else if i / 8 == 1 {
            Opcode::LD_imm16_sp
        } else if i / 8 == 2 {
            Opcode::STOP
        } else if i / 8 == 3 {
            Opcode::JR_imm8
        } else {
            Opcode::JR_cond_imm8 { cond: cond_of(i / 8 % 4) }
        }
    } else if i % 16 == 1 {
        Opcode::LD_r16_imm16 { dest: r16_of(i / 16 % 4) }
    } else if i % 16 == 2 {
        Opcode::LD_r16mem_a { r16mem: r16mem_of(i / 16 % 4) }
    } else if i % 16 == 3 {
        Opcode::INC_r16 { r16: r16_of(i / 16 % 4) }
    } else if i % 16 == 4 || i % 16 == 12 {
        Opcode::INC_r8 { r8: r8_of(i / 8 % 8) }
    } else if i % 16 == 5 || i % 16 == 13 {
        Opcode::DEC_r8 { r8: r8_of(i / 8 % 8) }
    } else if i % 16 == 6 || i % 16 == 14 {
        Opcode::LD_r8_imm8 { r8: r8_of(i / 8 % 8) }
    } else if i % 16 == 7 || i % 16 == 15 {
        if i / 8 == 0 {
            Opcode::RLCA
        } else if i / 8 == 1 {
            Opcode::RRCA
        } else if i / 8 == 2 {
            Opcode::RLA
        } else if i / 8 == 3 {
            Opcode::RRA
        } else if i / 8 == 4 {
            Opcode::DAA
        } else if i / 8 == 5 {
            Opcode::CPL
        } else if i / 8 == 6 {
            Opcode::SCF
        } else {
            Opcode::CCF
        }
    } else if i % 16 == 9 {
        Opcode::ADD_hl_r16 { r16: r16_of(i / 16 % 4) }
    } else if i % 16 == 10 {
        Opcode::LD_a_r16mem { r16mem: r16mem_of(i / 16 % 4) }
    } else {
        Opcode::DEC_r16 { r16: r16_of(i / 16 % 4) }
    }
}

pub open spec fn decode_alu_r8(k: int, r8: R8) -> Opcode {
    if k == 0 {
        Opcode::ADD_a_r8 { r8 }
    } else if k == 1 {
        Opcode::ADC_a_r8 { r8 }
    } else if k == 2 {
        Opcode::SUB_a_r8 { r8 }
    } else if k == 3 {
        Opcode::SBC_a_r8 { r8 }
    } else if k == 4 {
        Opcode::AND_a_r8 { r8 }
    } else if k == 5 {
        Opcode::XOR_a_r8 { r8 }
    } else if k == 6 {
        Opcode::OR_a_r8 { r8 }
    } else {
        Opcode::CP_a_r8 { r8 }
    }
}

pub open spec fn decode_alu_imm(k: int) -> Opcode {
    if k == 0 {
        Opcode::ADD_a_imm8
    } else if k == 1 {
        Opcode::ADC_a_imm8
    } else if k == 2 {
        Opcode::SUB_a_imm8
    } else if k == 3 {
        Opcode::SBC_a_imm8
    } else if k == 4 {
        Opcode::AND_a_imm8
    } else if k == 5 {
        Opcode::XOR_a_imm8
    } else if k == 6 {
        Opcode::OR_a_imm8
    } else {
        Opcode::CP_a_imm8
    }
}

pub open spec fn decode_block3(i: int) -> Opcode {
    if i % 16 == 1 {
        Opcode::POP { r16stk: r16stk_of(i / 16 % 4) }
    } else if i % 16 == 5 {
        Opcode::PUSH { r16stk: r16stk_of(i / 16 % 4) }
    } else if i % 16 == 6 || i % 16 == 14 {
        decode_alu_imm(i / 8 % 8)
    } else if i % 16 == 7 || i % 16 == 15 {
        Opcode::RST { tgt3: (i / 8 % 8) as u8 }
    } else if i % 64 == 0 || i % 64 == 8 || i % 64 == 16 || i % 64 == 24 {
        Opcode::RET_cond { cond: cond_of(i / 8 % 4) }
    } else if i % 64 == 9 {
        Opcode::RET
    } else if i % 64 == 25 {
        Opcode::RETI
    } else if i % 64 == 2 || i % 64 == 10 || i % 64 == 18 || i % 64 == 26 {
        Opcode::JP_cond_imm16 { cond: cond_of(i / 8 % 4) }
    } else if i % 64 == 3 {
        Opcode::JP_imm16
    } else if i % 64 == 41 {
        Opcode::JP_hl
    } else if i % 64 == 4 || i % 64 == 12 || i % 64 == 20 || i % 64 == 28 {
        Opcode::CALL_cond_imm16 { cond: cond_of(i / 8 % 4) }
    } else if i % 64 == 13 {
        Opcode::CALL_imm16
    } else if i % 64 == 11 {
        Opcode::PREFIX
    } else if i % 64 == 34 {
        Opcode::LDH_c_a
    } else if i % 64 == 32 {
        Opcode::LDH_imm8_a
    } else if i % 64 == 42 {
        Opcode::LD_imm16_a
    } else if i % 64 == 50 {
        Opcode::LDH_a_c
    } else if i % 64 == 48 {
        Opcode::LDH_a_imm8
    } else if i % 64 == 58 {
        Opcode::LD_a_imm16
    } else if i % 64 == 40 {
        Opcode::ADD_sp_imm8
    } else if i % 64 == 56 {
        Opcode::LD_hl_spimm8
    } else if i % 64 == 57 {
        Opcode::LD_sp_hl
    } else if i % 64 == 51 {
        Opcode::DI
    } else if i % 64 == 59 {
        Opcode::EI
    } else {
        Opcode::INVALID
    }
}

/// Decode of one CB-table byte.
pub open spec fn cb_decode_of(i: int) -> CBOpcode {
    let r8 = r8_of(i % 8);
    let b3 = i / 8 % 8;
    if i < 0x40 {
        if b3 == 0 {
            CBOpcode::RLC { r8 }
        } else if b3 == 1 {
            CBOpcode::RRC { r8 }
        } else if b3 == 2 {
            CBOpcode::RL { r8 }
        } else if b3 == 3 {
            CBOpcode::RR { r8 }
        } else if b3 == 4 {
            CBOpcode::SLA { r8 }
        } else if b3 == 5 {
            CBOpcode::SRA { r8 }
        } else if b3 == 6 {
            CBOpcode::SWAP { r8 }
        } else {
            CBOpcode::SRL { r8 }
        }
    } else if i < 0x80 {
        CBOpcode::BIT { b3: b3 as u8, r8 }
    } else if i < 0xC0 {
        CBOpcode::RES { b3: b3 as u8, r8 }
    } else {
        CBOpcode::SET { b3: b3 as u8, r8 }
    }
}

impl Opcode {
    /// Pure decode of one byte; the 256-entry lookup table of the hardware
    /// realized as a dispatch over the byte's bit fields.
    pub fn lookup(b: u8) -> (op: Opcode)
        ensures
            op == decode_of(b as int),
    {
        let i = b;
        if i < 0x40 {
            Self::lookup_block0(i)
        } else if i < 0x80 {
            if i == 0x76 {
                Opcode::HALT
            } else {
                Opcode::LD_r8_r8 { dest: Self::r8_field(i / 8 % 8), src: Self::r8_field(i % 8) }
            }
        } else if i < 0xC0 {
            let r8 = Self::r8_field(i % 8);
            let k = i / 8 % 8;
            if k == 0 {
                Opcode::ADD_a_r8 { r8 }
            } else if k == 1 {
                Opcode::ADC_a_r8 { r8 }
            } else if k == 2 {
                Opcode::SUB_a_r8 { r8 }
            } else if k == 3 {
                Opcode::SBC_a_r8 { r8 }
            } else if k == 4 {
                Opcode::AND_a_r8 { r8 }
            } else if k == 5 {
                Opcode::XOR_a_r8 { r8 }
            } else if k == 6 {
                Opcode::OR_a_r8 { r8 }
            } else {
                Opcode::CP_a_r8 { r8 }
            }
        } else {
            Self::lookup_block3(i)
        }
    }

    fn r8_field(k: u8) -> (r: R8)
        requires
            k < 8,
        ensures
            r == r8_of(k as int),
    {
        if k == 0 {
            R8::Reg(Reg8::B)
        } else if k == 1 {
            R8::Reg(Reg8::C)
        } else if k == 2 {
            R8::Reg(Reg8::D)
        } else if k == 3 {
            R8::Reg(Reg8::E)
        } else if k == 4 {
            R8::Reg(Reg8::H)
        } else if k == 5 {
            R8::Reg(Reg8::L)
        } else if k == 6 {
            R8::HLaddr
        } else {
            R8::Reg(Reg8::A)
        }
    }

    fn r16_field(k: u8) -> (r: Reg16)
        ensures
            r == r16_of(k as int),
    {
        if k == 0 {
            Reg16::BC
        } else if k == 1 {
            Reg16::DE
        } else if k == 2 {
            Reg16::HL
        } else {
            Reg16::SP
        }
    }

    fn r16stk_field(k: u8) -> (r: Reg16)
        ensures
            r == r16stk_of(k as int),
    {
        if k == 0 {
            Reg16::BC
        } else if k == 1 {
            Reg16::DE
        } else if k == 2 {
            Reg16::HL
        } else {
            Reg16::AF
        }
    }

    fn r16mem_field(k: u8) -> (r: R16mem)
        ensures
            r == r16mem_of(k as int),
    {
        if k == 0 {
            R16mem::BC
        } else if k == 1 {
            R16mem::DE
        } else if k == 2 {
            R16mem::HLi
        } else {
            R16mem::HLd
        }
    }

    fn cond_field(k: u8) -> (r: Condition)
        ensures
            r == cond_of(k as int),
    {
        if k == 0 {
            Condition::NZ
        } else if k == 1 {
            Condition::Z
        } else if k == 2 {
            Condition::NC
        } else {
            Condition::C
        }
    }

    fn lookup_block0(i: u8) -> (op: Opcode)
        requires
            i < 0x40,
        ensures
            op == decode_block0(i as int),
    {
        if i % 16 == 0 || i % 16 == 8 {
            if i / 8 == 0 {
                Opcode::NOP
            } else if i / 8 == 1 {
                Opcode::LD_imm16_sp
            } else if i / 8 == 2 {
                Opcode::STOP
            } else if i / 8 == 3 {
                Opcode::JR_imm8
            } else {
                Opcode::JR_cond_imm8 { cond: Self::cond_field(i / 8 % 4) }
            }
        } else if i % 16 == 1 {
            Opcode::LD_r16_imm16 { dest: Self::r16_field(i / 16 % 4) }
        } else if i % 16 == 2 {
            Opcode::LD_r16mem_a { r16mem: Self::r16mem_field(i / 16 % 4) }
        } else if i % 16 == 3 {
            Opcode::INC_r16 { r16: Self::r16_field(i / 16 % 4) }
        } else if i % 16 == 4 || i % 16 == 12 {
            Opcode::INC_r8 { r8: Self::r8_field(i / 8 % 8) }
        } else if i % 16 == 5 || i % 16 == 13 {
            Opcode::DEC_r8 { r8: Self::r8_field(i / 8 % 8) }
        } else if i % 16 == 6 || i % 16 == 14 {
            Opcode::LD_r8_imm8 { r8: Self::r8_field(i / 8 % 8) }
        } else if i % 16 == 7 || i % 16 == 15 {
            if i / 8 == 0 {
                Opcode::RLCA
            } else if i / 8 == 1 {
                Opcode::RRCA
            } else if i / 8 == 2 {
                Opcode::RLA
            } else if i / 8 == 3 {
                Opcode::RRA
            } else if i / 8 == 4 {
                Opcode::DAA
            } else if i / 8 == 5 {
                Opcode::CPL
            } else if i / 8 == 6 {
                Opcode::SCF
            } else {
                Opcode::CCF
            }
        } else if i % 16 == 9 {
            Opcode::ADD_hl_r16 { r16: Self::r16_field(i / 16 % 4) }
        } else if i % 16 == 10 {
            Opcode::LD_a_r16mem { r16mem: Self::r16mem_field(i / 16 % 4) }
        } else {
            Opcode::DEC_r16 { r16: Self::r16_field(i / 16 % 4) }
        }
    }

    fn lookup_block3(i: u8) -> (op: Opcode)
        requires
            0xC0 <= i,
        ensures
            op == decode_block3(i as int),
    {
        if i % 16 == 1 {
            Opcode::POP { r16stk: Self::r16stk_field(i / 16 % 4) }
        } else if i % 16 == 5 {
            Opcode::PUSH { r16stk: Self::r16stk_field(i / 16 % 4) }
        } else if i % 16 == 6 || i % 16 == 14 {
            let k = i / 8 % 8;
            if k == 0 {
                Opcode::ADD_a_imm8
            } else if k == 1 {
                Opcode::ADC_a_imm8
            } else if k == 2 {
                Opcode::SUB_a_imm8
            } else if k == 3 {
                Opcode::SBC_a_imm8
            } else if k == 4 {
                Opcode::AND_a_imm8
            } else if k == 5 {
                Opcode::XOR_a_imm8
            } else if k == 6 {
                Opcode::OR_a_imm8
            } else {
                Opcode::CP_a_imm8
            }
        } else if i % 16 == 7 || i % 16 == 15 {
            Opcode::RST { tgt3: i / 8 % 8 }
        } else {
            let t = i % 64;
            if t == 0 || t == 8 || t == 16 || t == 24 {
                Opcode::RET_cond { cond: Self::cond_field(i / 8 % 4) }
            } else if t == 9 {
                Opcode::RET
            } else if t == 25 {
                Opcode::RETI
            } else if t == 2 || t == 10 || t == 18 || t == 26 {
                Opcode::JP_cond_imm16 { cond: Self::cond_field(i / 8 % 4) }
            } else if t == 3 {
                Opcode::JP_imm16
            } else if t == 41 {
                Opcode::JP_hl
            } else if t == 4 || t == 12 || t == 20 || t == 28 {
                Opcode::CALL_cond_imm16 { cond: Self::cond_field(i / 8 % 4) }
            } else if t == 13 {
                Opcode::CALL_imm16
            } else if t == 11 {
                Opcode::PREFIX
            } else if t == 34 {
                Opcode::LDH_c_a
            } else if t == 32 {
                Opcode::LDH_imm8_a
            } else if t == 42 {
                Opcode::LD_imm16_a
            } else if t == 50 {
                Opcode::LDH_a_c
            } else if t == 48 {
                Opcode::LDH_a_imm8
            } else if t == 58 {
                Opcode::LD_a_imm16
            } else if t == 40 {
                Opcode::ADD_sp_imm8
            } else if t == 56 {
                Opcode::LD_hl_spimm8
            } else if t == 57 {
                Opcode::LD_sp_hl
            } else if t == 51 {
                Opcode::DI
            } else if t == 59 {
                Opcode::EI
            } else {
                Opcode::INVALID
            }
        }
    }
}

/// The canonical primary-table byte of an opcode.  `INVALID` stands for
/// several holes of the table; it is given the lowest of them.
pub open spec fn encode_of(op: Opcode) -> int {
    match op {
        Opcode::NOP => 0x00,
        Opcode::LD_r16_imm16 { dest } => 0x01 + 16 * r16_index(dest),
        Opcode::LD_r16mem_a { r16mem } => 0x02 + 16 * r16mem_index(r16mem),
        Opcode::LD_a_r16mem { r16mem } => 0x0A + 16 * r16mem_index(r16mem),
        Opcode::LD_imm16_sp => 0x08,
        Opcode::INC_r16 { r16 } => 0x03 + 16 * r16_index(r16),
        Opcode::DEC_r16 { r16 } => 0x0B + 16 * r16_index(r16),
        Opcode::ADD_hl_r16 { r16 } => 0x09 + 16 * r16_index(r16),
        Opcode::INC_r8 { r8 } => 0x04 + 8 * r8_index(r8),
        Opcode::DEC_r8 { r8 } => 0x05 + 8 * r8_index(r8),
        Opcode::LD_r8_imm8 { r8 } => 0x06 + 8 * r8_index(r8),
        Opcode::RLCA => 0x07,
        Opcode::RRCA => 0x0F,
        Opcode::RLA => 0x17,
        Opcode::RRA => 0x1F,
        Opcode::DAA => 0x27,
        Opcode::CPL => 0x2F,
        Opcode::SCF => 0x37,
        Opcode::CCF => 0x3F,
        Opcode::JR_imm8 => 0x18,
        Opcode::JR_cond_imm8 { cond } => 0x20 + 8 * cond_index(cond),
        Opcode::STOP => 0x10,
        Opcode::LD_r8_r8 { dest, src } => 0x40 + 8 * r8_index(dest) + r8_index(src),
        Opcode::HALT => 0x76,
        Opcode::ADD_a_r8 { r8 } => 0x80 + r8_index(r8),
        Opcode::ADC_a_r8 { r8 } => 0x88 + r8_index(r8),
        Opcode::SUB_a_r8 { r8 } => 0x90 + r8_index(r8),
        Opcode::SBC_a_r8 { r8 } => 0x98 + r8_index(r8),
        Opcode::AND_a_r8 { r8 } => 0xA0 + r8_index(r8),
        Opcode::XOR_a_r8 { r8 } => 0xA8 + r8_index(r8),
        Opcode::OR_a_r8 { r8 } => 0xB0 + r8_index(r8),
        Opcode::CP_a_r8 { r8 } => 0xB8 + r8_index(r8),
        Opcode::ADD_a_imm8 => 0xC6,
        Opcode::ADC_a_imm8 => 0xCE,
        Opcode::SUB_a_imm8 => 0xD6,
        Opcode::SBC_a_imm8 => 0xDE,
        Opcode::AND_a_imm8 => 0xE6,
        Opcode::XOR_a_imm8 => 0xEE,
        Opcode::OR_a_imm8 => 0xF6,
        Opcode::CP_a_imm8 => 0xFE,
        Opcode::RET_cond { cond } => 0xC0 + 8 * cond_index(cond),
        Opcode::RET => 0xC9,
        Opcode::RETI => 0xD9,
        Opcode::JP_cond_imm16 { cond } => 0xC2 + 8 * cond_index(cond),
        Opcode::JP_imm16 => 0xC3,
        Opcode::JP_hl => 0xE9,
        Opcode::CALL_cond_imm16 { cond } => 0xC4 + 8 * cond_index(cond),
        Opcode::CALL_imm16 => 0xCD,
        Opcode::RST { tgt3 } => 0xC7 + 8 * (tgt3 as int % 8),
        Opcode::POP { r16stk } => 0xC1 + 16 * r16stk_index(r16stk),
        Opcode::PUSH { r16stk } => 0xC5 + 16 * r16stk_index(r16stk),
        Opcode::PREFIX => 0xCB,
        Opcode::LDH_c_a => 0xE2,
        Opcode::LDH_imm8_a => 0xE0,
        Opcode::LD_imm16_a => 0xEA,
        Opcode::LDH_a_c => 0xF2,
        Opcode::LDH_a_imm8 => 0xF0,
        Opcode::LD_a_imm16 => 0xFA,
        Opcode::ADD_sp_imm8 => 0xE8,
        Opcode::LD_hl_spimm8 => 0xF8,
        Opcode::LD_sp_hl => 0xF9,
        Opcode::DI => 0xF3,
        Opcode::EI => 0xFB,
        Opcode::INVALID => 0xD3,
    }
}

impl Opcode {
    /// The canonical byte of this opcode, matching `encode_of`.
    #[verifier::rlimit(100)]
    #[verifier::spinoff_prover]
    pub fn encode(self) -> (r: u8)
        ensures
            r as int == encode_of(self),
    {
        match self {
            Opcode::NOP => return 0x00,
            Opcode::LD_r16_imm16 { dest } => return 0x01 + 16 * Self::r16_index_exec(dest),
            Opcode::LD_r16mem_a { r16mem } => return 0x02 + 16 * Self::r16mem_index_exec(r16mem),
            Opcode::LD_a_r16mem { r16mem } => return 0x0A + 16 * Self::r16mem_index_exec(r16mem),
            Opcode::LD_imm16_sp => return 0x08,
            Opcode::INC_r16 { r16 } => return 0x03 + 16 * Self::r16_index_exec(r16),
            Opcode::DEC_r16 { r16 } => return 0x0B + 16 * Self::r16_index_exec(r16),
            Opcode::ADD_hl_r16 { r16 } => return 0x09 + 16 * Self::r16_index_exec(r16),
            Opcode::INC_r8 { r8 } => return 0x04 + 8 * Self::r8_index_exec(r8),
            Opcode::DEC_r8 { r8 } => return 0x05 + 8 * Self::r8_index_exec(r8),
            Opcode::LD_r8_imm8 { r8 } => return 0x06 + 8 * Self::r8_index_exec(r8),
            Opcode::RLCA => return 0x07,
            Opcode::RRCA => return 0x0F,
            Opcode::RLA => return 0x17,
            Opcode::RRA => return 0x1F,
            Opcode::DAA => return 0x27,
            Opcode::CPL => return 0x2F,
            Opcode::SCF => return 0x37,
            Opcode::CCF => return 0x3F,
            Opcode::JR_imm8 => return 0x18,
            Opcode::JR_cond_imm8 { cond } => return 0x20 + 8 * Self::cond_index_exec(cond),
            Opcode::STOP => return 0x10,
            Opcode::LD_r8_r8 { dest, src } => return 0x40 + 8 * Self::r8_index_exec(dest)
                + Self::r8_index_exec(src),
            Opcode::HALT => return 0x76,
            Opcode::ADD_a_r8 { r8 } => return 0x80 + Self::r8_index_exec(r8),
            Opcode::ADC_a_r8 { r8 } => return 0x88 + Self::r8_index_exec(r8),
            Opcode::SUB_a_r8 { r8 } => return 0x90 + Self::r8_index_exec(r8),
            Opcode::SBC_a_r8 { r8 } => return 0x98 + Self::r8_index_exec(r8),
            Opcode::AND_a_r8 { r8 } => return 0xA0 + Self::r8_index_exec(r8),
            Opcode::XOR_a_r8 { r8 } => return 0xA8 + Self::r8_index_exec(r8),
            Opcode::OR_a_r8 { r8 } => return 0xB0 + Self::r8_index_exec(r8),
            Opcode::CP_a_r8 { r8 } => return 0xB8 + Self::r8_index_exec(r8),
            Opcode::ADD_a_imm8 => return 0xC6,
            Opcode::ADC_a_imm8 => return 0xCE,
            Opcode::SUB_a_imm8 => return 0xD6,
            Opcode::SBC_a_imm8 => return 0xDE,
            Opcode::AND_a_imm8 => return 0xE6,
            Opcode::XOR_a_imm8 => return 0xEE,
            Opcode::OR_a_imm8 => return 0xF6,
            Opcode::CP_a_imm8 => return 0xFE,
            Opcode::RET_cond { cond } => return 0xC0 + 8 * Self::cond_index_exec(cond),
            Opcode::RET => return 0xC9,
            Opcode::RETI => return 0xD9,
            Opcode::JP_cond_imm16 { cond } => return 0xC2 + 8 * Self::cond_index_exec(cond),
            Opcode::JP_imm16 => return 0xC3,
            Opcode::JP_hl => return 0xE9,
            Opcode::CALL_cond_imm16 { cond } => return 0xC4 + 8 * Self::cond_index_exec(cond),
            Opcode::CALL_imm16 => return 0xCD,
            Opcode::RST { tgt3 } => return 0xC7 + 8 * (tgt3 % 8),
            Opcode::POP { r16stk } => return 0xC1 + 16 * Self::r16stk_index_exec(r16stk),
            Opcode::PUSH { r16stk } => return 0xC5 + 16 * Self::r16stk_index_exec(r16stk),
            Opcode::PREFIX => return 0xCB,
            Opcode::LDH_c_a => return 0xE2,
            Opcode::LDH_imm8_a => return 0xE0,
            Opcode::LD_imm16_a => return 0xEA,
            Opcode::LDH_a_c => return 0xF2,
            Opcode::LDH_a_imm8 => return 0xF0,
            Opcode::LD_a_imm16 => return 0xFA,
            Opcode::ADD_sp_imm8 => return 0xE8,
            Opcode::LD_hl_spimm8 => return 0xF8,
            Opcode::LD_sp_hl => return 0xF9,
            Opcode::DI => return 0xF3,
            Opcode::EI => return 0xFB,
            Opcode::INVALID => return 0xD3,
        }
    }

    fn r8_index_exec(r: R8) -> (k: u8)
        ensures
            k as int == r8_index(r),
            k < 8,
    {
        match r {
            R8::Reg(Reg8::B) => 0,
            R8::Reg(Reg8::C) => 1,
            R8::Reg(Reg8::D) => 2,
            R8::Reg(Reg8::E) => 3,
            R8::Reg(Reg8::H) => 4,
            R8::Reg(Reg8::L) => 5,
            R8::HLaddr => 6,
            R8::Reg(Reg8::A) => 7,
        }
    }

    fn r16_index_exec(r: Reg16) -> (k: u8)
        ensures
            k as int == r16_index(r),
            k < 4,
    {
        match r {
            Reg16::BC => 0,
            Reg16::DE => 1,
            Reg16::HL => 2,
            Reg16::SP => 3,
            Reg16::AF => 3,
        }
    }

    fn r16stk_index_exec(r: Reg16) -> (k: u8)
        ensures
            k as int == r16stk_index(r),
            k < 4,
    {
        match r {
            Reg16::BC => 0,
            Reg16::DE => 1,
            Reg16::HL => 2,
            Reg16::AF => 3,
            Reg16::SP => 3,
        }
    }

    fn r16mem_index_exec(r: R16mem) -> (k: u8)
        ensures
            k as int == r16mem_index(r),
            k < 4,
    {
        match r {
            R16mem::BC => 0,
            R16mem::DE => 1,
            R16mem::HLi => 2,
            R16mem::HLd => 3,
        }
    }

    fn cond_index_exec(c: Condition) -> (k: u8)
        ensures
            k as int == cond_index(c),
            k < 4,
    {
        match c {
            Condition::NZ => 0,
            Condition::Z => 1,
            Condition::NC => 2,
            Condition::C => 3,
        }
    }
}

/// Encode after decode is the identity on every defined primary-table
/// byte: for each byte whose decode is not `INVALID`, re-encoding the
/// decoded opcode gives the byte back.
pub proof fn lemma_decode_encode(b: u8)
    requires
        decode_of(b as int) != Opcode::INVALID,
    ensures
        encode_of(decode_of(b as int)) == b as int,
{
    let i = b as int;
    assert(0 <= i < 256);
    lemma_byte_fields(b);
    if i < 0x40 {
        lemma_decode_encode_block0(b);
    } else if i < 0x80 {
        if i != 0x76 {
            assert(r8_index(r8_of(i / 8 % 8)) == i / 8 % 8);
            assert(r8_index(r8_of(i % 8)) == i % 8);
            assert(0x40 + 8 * (i / 8 % 8) + i % 8 == i);
        }
    } else if i < 0xC0 {
        assert(r8_index(r8_of(i % 8)) == i % 8);
        assert(encode_of(decode_alu_r8(i / 8 % 8, r8_of(i % 8))) == 0x80 + 8 * (i / 8 % 8) + i % 8);
        assert(0x80 + 8 * (i / 8 % 8) + i % 8 == i);
    } else {
        lemma_decode_encode_block3(b);
    }
}

/// The bit-field decompositions of a byte that the decode cases rely on.
proof fn lemma_byte_fields(b: u8)
    ensures
        b as int == 64 * (b as int / 64) + 8 * (b as int / 8 % 8) + b as int % 8,
        b as int / 8 % 8 == b as int % 64 / 8,
        b as int % 16 % 8 == b as int % 8,
        b as int == 16 * (b as int / 16) + b as int % 16,
        b as int / 16 % 4 == b as int % 64 / 16,
        0x40 <= b < 0x80 ==> b as int / 64 == 1,
        0x80 <= b < 0xC0 ==> b as int / 64 == 2,
        0xC0 <= b ==> b as int / 64 == 3,
        b < 0x40 ==> b as int / 64 == 0,
{
    let i = b as int;
    assert(i == 64 * (i / 64) + 8 * (i / 8 % 8) + i % 8
        && i / 8 % 8 == i % 64 / 8
        && i % 16 % 8 == i % 8
        && i == 16 * (i / 16) + i % 16
        && i / 16 % 4 == i % 64 / 16) by {
        assert(b as int == 64 * (b as int / 64) + 8 * (b as int / 8 % 8) + b as int % 8
            && b as int / 8 % 8 == b as int % 64 / 8
            && b as int % 16 % 8 == b as int % 8
            && b as int == 16 * (b as int / 16) + b as int % 16
            && b as int / 16 % 4 == b as int % 64 / 16) by (bit_vector);
    }
}

proof fn lemma_decode_encode_block0(b: u8)
    requires
        b < 0x40,
    ensures
        encode_of(decode_block0(b as int)) == b as int,
{
    let i = b as int;
    lemma_byte_fields(b);
    assert(i % 64 == i);
    if i % 16 == 0 || i % 16 == 8 {
        assert(i % 8 == 0);
        assert(i == 8 * (i / 8));
        if i / 8 >= 4 {
            assert(cond_index(cond_of(i / 8 % 4)) == i / 8 % 4);
            assert(i / 8 % 4 == i / 8 - 4);
            assert(0x20 + 8 * (i / 8 - 4) == i);
        }
    } else if i % 16 == 1 || i % 16 == 2 || i % 16 == 3 || i % 16 == 9 || i % 16 == 10
        || i % 16 == 11 {
        assert(r16_index(r16_of(i / 16 % 4)) == i / 16 % 4);
        assert(r16mem_index(r16mem_of(i / 16 % 4)) == i / 16 % 4);
        assert(i / 16 % 4 == i / 16);
        assert(i % 16 + 16 * (i / 16) == i);
    } else if i % 16 == 4 || i % 16 == 12 || i % 16 == 5 || i % 16 == 13 || i % 16 == 6
        || i % 16 == 14 {
        assert(r8_index(r8_of(i / 8 % 8)) == i / 8 % 8);
        assert(i / 8 % 8 == i / 8);
        assert(i % 8 == i % 16 % 8);
        assert(i == 8 * (i / 8) + i % 8);
    } else {
        assert(i % 8 == 7);
        assert(i == 8 * (i / 8) + 7);
    }
}

proof fn lemma_decode_encode_block3(b: u8)
    requires
        0xC0 <= b,
        decode_block3(b as int) != Opcode::INVALID,
    ensures
        encode_of(decode_block3(b as int)) == b as int,
{
    let i = b as int;
    lemma_byte_fields(b);
    assert(i % 64 == i - 0xC0);
    if i % 16 == 1 || i % 16 == 5 {
        assert(r16stk_index(r16stk_of(i / 16 % 4)) == i / 16 % 4);
        assert(i / 16 % 4 == i / 16 - 12);
        assert(i % 16 + 16 * (i / 16) == i);
    } else if i % 16 == 6 || i % 16 == 14 {
        assert(i % 8 == 6);
        assert(encode_of(decode_alu_imm(i / 8 % 8)) == 0xC6 + 8 * (i / 8 % 8)) by {
            assert(i / 8 % 8 < 8);
        }
        assert(i / 8 % 8 == i / 8 - 24);
        assert(i == 8 * (i / 8) + 6);
    } else if i % 16 == 7 || i % 16 == 15 {
        assert(i % 8 == 7);
        assert(i / 8 % 8 == i / 8 - 24);
        assert(i == 8 * (i / 8) + 7);
    } else {
        let t = i % 64;
        assert(t == i - 0xC0);
        if t == 0 || t == 8 || t == 16 || t == 24 || t == 2 || t == 10 || t == 18 || t == 26
            || t == 4 || t == 12 || t == 20 || t == 28 {
            assert(cond_index(cond_of(i / 8 % 4)) == i / 8 % 4);
            assert(i / 8 % 4 == (i - 0xC0) / 8);
        }
    }
}

impl CBOpcode {
    /// Pure decode of the byte following a `$CB` prefix.
    pub fn lookup(b: u8) -> (op: CBOpcode)
        ensures
            op == cb_decode_of(b as int),
    {
        let r8 = Opcode::r8_field(b % 8);
        let b3 = b / 8 % 8;
        if b < 0x40 {
            if b3 == 0 {
                CBOpcode::RLC { r8 }
            } else if b3 == 1 {
                CBOpcode::RRC { r8 }
            } else if b3 == 2 {
                CBOpcode::RL { r8 }
            } else if b3 == 3 {
                CBOpcode::RR { r8 }
            } else if b3 == 4 {
                CBOpcode::SLA { r8 }
            } else if b3 == 5 {
                CBOpcode::SRA { r8 }
            } else if b3 == 6 {
                CBOpcode::SWAP { r8 }
            } else {
                CBOpcode::SRL { r8 }
            }
        } else if b < 0x80 {
            CBOpcode::BIT { b3, r8 }
        } else if b < 0xC0 {
            CBOpcode::RES { b3, r8 }
        } else {
            CBOpcode::SET { b3, r8 }
        }
    }
}

} // verus!
