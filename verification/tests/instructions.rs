//! CPU instruction behavior: per-opcode durations on a deterministic
//! context, branch timing, the bit operations and the decode/encode
//! round trip.

use cvgb::opcode::{Condition, Opcode, R8};
use cvgb::regs::Reg8;
use cvgb::system::System;

/// A machine whose work RAM window holds `val` everywhere the program
/// counter will look, with execution parked at `$C800`.
fn stub_system(val: u8) -> System {
    let rom = vec![0u8; 0x8000];
    let mut sys = System::now_without_boot_rom(rom).expect("header parses");
    let mut a: u16 = 0xC000;
    while a < 0xE000 {
        sys.bus.write(a, val);
        a += 1;
    }
    sys.cpu.regs.pc = 0xC800;
    sys
}

#[test]
fn instruction_duration() {
    for i in 0..255u8 {
        let opcode = Opcode::lookup(i);
        if matches!(opcode, Opcode::STOP | Opcode::INVALID) {
            continue;
        }
        let mut sys = stub_system(i);

        // Load opcode
        sys.step();

        // Execute
        let before = sys.bus.mcycles;
        sys.step();
        let cycle_count = (sys.bus.mcycles - before) as usize;

        let instruction_duration = match opcode {
            Opcode::NOP => 1,
            Opcode::LD_r16_imm16 { dest: _ } => 3,
            Opcode::LD_r16mem_a { r16mem: _ } => 2,
            Opcode::LD_a_r16mem { r16mem: _ } => 2,
            Opcode::LD_imm16_sp => 5,
            Opcode::INC_r16 { r16: _ } => 2,
            Opcode::DEC_r16 { r16: _ } => 2,
            Opcode::ADD_hl_r16 { r16: _ } => 2,
            Opcode::INC_r8 { r8 } => {
                if matches!(r8, R8::HLaddr) {
                    3
                } else {
                    1
                }
            }
            Opcode::DEC_r8 { r8 } => {
                if matches!(r8, R8::HLaddr) {
                    3
                } else {
                    1
                }
            }
            Opcode::LD_r8_imm8 { r8 } => {
                if matches!(r8, R8::HLaddr) {
                    3
                } else {
                    2
                }
            }
            Opcode::RLCA => 1,
            Opcode::RRCA => 1,
            Opcode::RLA => 1,
            Opcode::RRA => 1,
            Opcode::DAA => 1,
            Opcode::CPL => 1,
            Opcode::SCF => 1,
            Opcode::CCF => 1,
            Opcode::JR_imm8 => 3,
            Opcode::JR_cond_imm8 { cond } => {
                if matches!(cond, Condition::NZ | Condition::NC) {
                    3
                } else {
                    2
                }
            }
            Opcode::STOP => 2,
            Opcode::LD_r8_r8 { dest, src } => {
                if dest == src {
                    1
                } else if matches!(dest, R8::HLaddr) || matches!(src, R8::HLaddr) {
                    2
                } else {
                    1
                }
            }
            Opcode::HALT => 1,
            Opcode::ADD_a_r8 { r8 } => {
                if matches!(r8, R8::HLaddr) {
                    2
                } else {
                    1
                }
            }
            Opcode::ADC_a_r8 { r8 } => {
                if matches!(r8, R8::HLaddr) {
                    2
                } else {
                    1
                }
            }
            Opcode::SUB_a_r8 { r8 } => {
                if matches!(r8, R8::HLaddr) {
                    2
                } else {
                    1
                }
            }
            Opcode::SBC_a_r8 { r8 } => {
                if matches!(r8, R8::HLaddr) {
                    2
                } else {
                    1
                }
            }
            Opcode::AND_a_r8 { r8 } => {
                if matches!(r8, R8::HLaddr) {
                    2
                } else {
                    1
                }
            }
            Opcode::XOR_a_r8 { r8 } => {
                if matches!(r8, R8::HLaddr) {
                    2
                } else {
                    1
                }
            }
            Opcode::OR_a_r8 { r8 } => {
                if matches!(r8, R8::HLaddr) {
                    2
                } else {
                    1
                }
            }
            Opcode::CP_a_r8 { r8 } => {
                if matches!(r8, R8::HLaddr) {
                    2
                } else {
                    1
                }
            }
            Opcode::ADD_a_imm8 => 2,
            Opcode::ADC_a_imm8 => 2,
            Opcode::SUB_a_imm8 => 2,
            Opcode::SBC_a_imm8 => 2,
            Opcode::AND_a_imm8 => 2,
            Opcode::XOR_a_imm8 => 2,
            Opcode::OR_a_imm8 => 2,
            Opcode::CP_a_imm8 => 2,
            Opcode::RET_cond { cond } => {
                if matches!(cond, Condition::NZ | Condition::NC) {
                    5
                } else {
                    2
                }
            }
            Opcode::RET => 4,
            Opcode::RETI => 4,
            Opcode::JP_cond_imm16 { cond } => {
                if matches!(cond, Condition::NZ | Condition::NC) {
                    4
                } else {
                    3
                }
            }
            Opcode::JP_imm16 => 4,
            Opcode::JP_hl => 1,
            Opcode::CALL_cond_imm16 { cond } => {
                if matches!(cond, Condition::NZ | Condition::NC) {
                    6
                } else {
                    3
                }
            }
            Opcode::CALL_imm16 => 6,
            Opcode::RST { tgt3: _ } => 4,
            Opcode::POP { r16stk: _ } => 3,
            Opcode::PUSH { r16stk: _ } => 4,
            Opcode::PREFIX => 2,
            Opcode::LDH_c_a => 2,
            Opcode::LDH_imm8_a => 3,
            Opcode::LD_imm16_a => 4,
            Opcode::LDH_a_c => 2,
            Opcode::LDH_a_imm8 => 3,
            Opcode::LD_a_imm16 => 4,
            Opcode::ADD_sp_imm8 => 4,
            Opcode::LD_hl_spimm8 => 3,
            Opcode::LD_sp_hl => 2,
            Opcode::DI => 1,
            Opcode::EI => 1,
            Opcode::INVALID => 1,
        };
        if matches!(opcode, Opcode::INVALID) {
            continue;
        }
        assert_eq!(
            cycle_count, instruction_duration,
            "testing duration of instruction {opcode:?}"
        );
    }
}

#[test]
fn jr_taken_vs_not_taken() {
    // JR NZ, $02 at $C800 with Z=1: 2 M-cycles, no branch.
    let mut sys = stub_system(0);
    sys.bus.write(0xC800, 0x20);
    sys.bus.write(0xC801, 0x02);
    sys.cpu.regs.f.z = true;
    sys.step();
    let before = sys.bus.mcycles;
    sys.step();
    assert_eq!(sys.bus.mcycles - before, 2);
    assert_eq!(sys.current_instruction_addr(), 0xC802);

    // With Z=0: 3 M-cycles; the next instruction sits at the signed
    // offset past the 2-byte instruction.
    let mut sys = stub_system(0);
    sys.bus.write(0xC800, 0x20);
    sys.bus.write(0xC801, 0x02);
    sys.cpu.regs.f.z = false;
    sys.step();
    let before = sys.bus.mcycles;
    sys.step();
    assert_eq!(sys.bus.mcycles - before, 3);
    assert_eq!(sys.current_instruction_addr(), 0xC804);
}

#[test]
fn set_then_bit_clears_z_and_res_sets_z() {
    let rom = vec![0u8; 0x8000];
    for b3 in 0..8u8 {
        for v in [0x00u8, 0x55, 0xAA, 0xFF] {
            let mut sys = System::now_without_boot_rom(rom.clone()).unwrap();
            sys.cpu.regs.b = v;
            sys.cpu.set(&mut sys.bus, R8::Reg(Reg8::B), b3);
            sys.cpu.bit(&mut sys.bus, R8::Reg(Reg8::B), b3);
            assert!(!sys.cpu.regs.f.z, "set then bit must find the bit set");

            let mut sys = System::now_without_boot_rom(rom.clone()).unwrap();
            sys.cpu.regs.b = v;
            sys.cpu.res(&mut sys.bus, R8::Reg(Reg8::B), b3);
            sys.cpu.bit(&mut sys.bus, R8::Reg(Reg8::B), b3);
            assert!(sys.cpu.regs.f.z, "res then bit must find the bit clear");
        }
    }
}

#[test]
fn decode_encode_round_trip() {
    for b in 0..=255u8 {
        let op = Opcode::lookup(b);
        if matches!(op, Opcode::INVALID) {
            continue;
        }
        assert_eq!(op.encode(), b, "canonical byte of {op:?}");
    }
}

#[test]
fn halt_bug_repeats_one_byte() {
    // IME=0, IF=$01, IE=$01; HALT followed by INC A runs INC A twice.
    let mut sys = stub_system(0);
    sys.bus.write(0xC800, 0x76);
    sys.bus.write(0xC801, 0x3C);
    sys.bus.write(0xFF0F, 0x01);
    sys.bus.write(0xFFFF, 0x01);
    sys.cpu.regs.a = 0x00;
    sys.step();
    sys.step();
    sys.step();
    sys.step();
    assert_eq!(sys.cpu.regs.a, 0x02, "HALT bug executes the next byte twice");
}

#[test]
fn alu_basics() {
    let mut sys = stub_system(0);
    // ADD A, B with carry out and half-carry.
    sys.cpu.regs.a = 0xFF;
    sys.cpu.regs.b = 0x01;
    sys.cpu.add(&mut sys.bus, cvgb::cpu::Src::R(R8::Reg(Reg8::B)));
    assert_eq!(sys.cpu.regs.a, 0x00);
    assert!(sys.cpu.regs.f.z && sys.cpu.regs.f.h && sys.cpu.regs.f.c && !sys.cpu.regs.f.n);

    // SUB borrows.
    sys.cpu.regs.a = 0x10;
    sys.cpu.regs.b = 0x20;
    sys.cpu.sub(&mut sys.bus, cvgb::cpu::Src::R(R8::Reg(Reg8::B)));
    assert_eq!(sys.cpu.regs.a, 0xF0);
    assert!(sys.cpu.regs.f.c && sys.cpu.regs.f.n);

    // DAA adjusts a BCD add: 19 + 28 = 47 in BCD.
    sys.cpu.regs.a = 0x19;
    sys.cpu.regs.b = 0x28;
    sys.cpu.add(&mut sys.bus, cvgb::cpu::Src::R(R8::Reg(Reg8::B)));
    sys.cpu.daa(&mut sys.bus);
    assert_eq!(sys.cpu.regs.a, 0x47);
}
