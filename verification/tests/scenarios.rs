//! End-to-end scenarios: the boot sequence, interrupt dispatch, the
//! bus round trips and the header parse.

use cvgb::cartridge::{Cartridge, CartridgeParseError};
use cvgb::mbc::MemoryBankController;
use cvgb::regs::{Reg16, Registers};
use cvgb::system::System;

#[test]
fn boot_sequence_reaches_entry_point() {
    // An empty 32 KiB cartridge with the boot overlay enabled: stepping
    // until execution stands at $0100 leaves the documented register
    // state and the overlay locked out.
    let mut sys = System::now(vec![0u8; 0x8000]).expect("header parses");
    let mut guard = 0u32;
    while sys.current_instruction_addr() != 0x0100 {
        sys.step();
        guard += 1;
        assert!(guard < 5000, "boot program must reach $0100");
    }
    assert_eq!(sys.cpu.regs.get16(Reg16::AF), 0x01B0);
    assert_eq!(sys.cpu.regs.get16(Reg16::BC), 0x0013);
    assert_eq!(sys.cpu.regs.get16(Reg16::DE), 0x00D8);
    assert_eq!(sys.cpu.regs.get16(Reg16::HL), 0x014D);
    assert_eq!(sys.cpu.regs.sp, 0xFFFE);
    assert!(sys.boot_rom_disabled());
}

#[test]
fn interrupt_dispatch_five_cycles_to_vector() {
    let mut sys = System::now_without_boot_rom(vec![0u8; 0x8000]).unwrap();
    // Park execution on no-ops in work RAM with a usable stack.
    sys.cpu.regs.pc = 0xC800;
    sys.cpu.regs.sp = 0xD000;
    sys.cpu.ime = true;
    sys.bus.write(0xFFFF, 0x01);
    sys.bus.write(0xFF0F, 0x01);
    // The first step prefetches and latches the pending request.
    sys.step();
    let ret = sys.current_instruction_addr() as u16;
    let before = sys.bus.mcycles;
    sys.step();
    assert_eq!(sys.bus.mcycles - before, 5, "dispatch takes five M-cycles");
    assert!(!sys.cpu.ime);
    assert_eq!(sys.cpu.regs.sp, 0xCFFE);
    assert_eq!(sys.current_instruction_addr(), 0x40);
    assert_eq!(sys.peek(0xCFFF), (ret >> 8) as u8);
    assert_eq!(sys.peek(0xCFFE), (ret & 0xFF) as u8);
    // The request was acknowledged.
    assert!(!sys.bus.iflags.vblank);
}

#[test]
fn unmapped_reads_are_ff() {
    let sys = System::now_without_boot_rom(vec![0u8; 0x8000]).unwrap();
    assert_eq!(sys.peek(0xFEA0), 0xFF);
    assert_eq!(sys.peek(0xFEFF), 0xFF);
    assert_eq!(sys.peek(0xFF10), 0xFF);
    assert_eq!(sys.peek(0xFF3F), 0xFF);
    assert_eq!(sys.peek(0xFF7F), 0xFF);
}

#[test]
fn plain_registers_round_trip() {
    let mut sys = System::now_without_boot_rom(vec![0u8; 0x8000]).unwrap();
    for (addr, val) in [
        (0xFF05u16, 0x12u8),
        (0xFF06, 0x34),
        (0xFF42, 0x56),
        (0xFF43, 0x78),
        (0xFF45, 0x9A),
        (0xFF46, 0xC0),
        (0xFF47, 0xE4),
        (0xFF48, 0x1B),
        (0xFF49, 0xD2),
        (0xFF4A, 0x33),
        (0xFF4B, 0x44),
    ] {
        sys.bus.write(addr, val);
        assert_eq!(sys.peek(addr), val, "register {addr:04x}");
    }
}

#[test]
fn f_low_nibble_reads_zero() {
    let mut regs = Registers::new();
    regs.set16(Reg16::AF, 0xFFFF);
    assert_eq!(regs.get16(Reg16::AF), 0xFFF0);
    regs.set16(Reg16::AF, 0x1234);
    assert_eq!(regs.get16(Reg16::AF) & 0x000F, 0);
}

#[test]
fn push_pop_round_trip_through_memory() {
    let mut sys = System::now_without_boot_rom(vec![0u8; 0x8000]).unwrap();
    sys.cpu.regs.sp = 0xD000;
    sys.cpu.regs.set16(Reg16::BC, 0xBEEF);
    sys.cpu.push(&mut sys.bus, Reg16::BC);
    sys.cpu.regs.set16(Reg16::BC, 0);
    sys.cpu.pop(&mut sys.bus, Reg16::BC);
    assert_eq!(sys.cpu.regs.get16(Reg16::BC), 0xBEEF);

    // Through AF the low nibble of the popped flags is masked away.
    sys.cpu.regs.sp = 0xD000;
    sys.bus.write(0xCFFE, 0xEF);
    sys.bus.write(0xCFFF, 0xBE);
    sys.cpu.regs.sp = 0xCFFE;
    sys.cpu.pop(&mut sys.bus, Reg16::AF);
    assert_eq!(sys.cpu.regs.get16(Reg16::AF), 0xBEE0);
}

#[test]
fn header_parse_rejects_unknown_type() {
    let mut rom = vec![0u8; 0x8000];
    rom[0x147] = 0x04;
    match Cartridge::from_rom(rom) {
        Err(CartridgeParseError::UnknownCartridgeType(t)) => assert_eq!(t, 0x04),
        _ => panic!("unknown cartridge type must be rejected"),
    }
}

#[test]
fn header_parse_reads_title_and_mbc() {
    let mut rom = vec![0u8; 0x8000];
    let title = b"CVGB";
    for (i, b) in title.iter().enumerate() {
        rom[0x134 + i] = *b;
    }
    rom[0x147] = 0x01;
    let cart = Cartridge::from_rom(rom).unwrap();
    assert_eq!(&cart.title, b"CVGB");
    assert!(matches!(cart.mbc, MemoryBankController::MBC1 { .. }));
    assert_eq!(cart.ram.len(), 0);
}

#[test]
fn mbc1_bank_switching() {
    // A 128 KiB image with a marker in each 16 KiB bank.
    let mut rom = vec![0u8; 0x20000];
    rom[0x147] = 0x01;
    for bank in 0..8usize {
        rom[bank * 0x4000] = 0xB0 + bank as u8;
    }
    let mut sys = System::now_without_boot_rom(rom).unwrap();
    // Bank 0 fixed below $4000; bank 0 selects bank 1 above.
    assert_eq!(sys.peek(0x0000), 0xB0);
    assert_eq!(sys.peek(0x4000), 0xB1);
    sys.bus.write(0x2000, 0x02);
    assert_eq!(sys.peek(0x4000), 0xB2);
    sys.bus.write(0x2000, 0x07);
    assert_eq!(sys.peek(0x4000), 0xB7);
}

#[test]
fn mbc1_ram_enable_gate() {
    let mut rom = vec![0u8; 0x8000];
    rom[0x147] = 0x03;
    rom[0x149] = 0x02;
    let mut sys = System::now_without_boot_rom(rom).unwrap();
    // Disabled RAM reads $FF and drops writes.
    sys.bus.write(0xA000, 0x12);
    assert_eq!(sys.peek(0xA000), 0xFF);
    // Enable, write, read back; disable again.
    sys.bus.write(0x0000, 0x0A);
    sys.bus.write(0xA000, 0x12);
    assert_eq!(sys.peek(0xA000), 0x12);
    sys.bus.write(0x0000, 0x00);
    assert_eq!(sys.peek(0xA000), 0xFF);
}

#[test]
fn boot_rom_lock_is_permanent() {
    let mut sys = System::now(vec![0u8; 0x8000]).unwrap();
    assert!(!sys.boot_rom_disabled());
    sys.bus.write(0xFF50, 0x00);
    assert!(!sys.boot_rom_disabled(), "a zero write does not lock");
    sys.bus.write(0xFF50, 0x01);
    assert!(sys.boot_rom_disabled());
    sys.bus.write(0xFF50, 0x00);
    assert!(sys.boot_rom_disabled(), "the lock cannot be undone");
}

#[test]
fn interrupt_registers_mask_upper_bits() {
    let mut sys = System::now_without_boot_rom(vec![0u8; 0x8000]).unwrap();
    sys.bus.write(0xFF0F, 0xFF);
    assert_eq!(sys.peek(0xFF0F), 0xFF);
    sys.bus.write(0xFF0F, 0x00);
    assert_eq!(sys.peek(0xFF0F), 0xE0, "upper three bits read as 1");
    sys.bus.write(0xFFFF, 0x15);
    assert_eq!(sys.peek(0xFFFF), 0xF5);
}
