//! Peripheral behavior: the timer with its overflow delay and period,
//! OAM DMA, the PPU line clock and STAT edge, the joypad register, and
//! one rendered sprite.

use cvgb::joypad::{INPUT_A, INPUT_RIGHT};
use cvgb::ppu::Pixel;
use cvgb::system::System;

fn fresh() -> System {
    System::now_without_boot_rom(vec![0u8; 0x8000]).expect("header parses")
}

#[test]
fn timer_overflow_reloads_and_raises() {
    // sys_clock=0, TIMA=$FE, TMA=$42, TAC=$05 (enabled, every 4
    // M-cycles): after 8 cycles TIMA=$00, after 9 TIMA=$42 with the
    // timer interrupt raised.
    let mut sys = fresh();
    sys.bus.timer.tima = 0xFE;
    sys.bus.timer.tma = 0x42;
    sys.bus.timer.tac = 0x05;
    sys.bus.timer.sys_clock = 0;
    for _ in 0..8 {
        sys.bus.tick(false);
    }
    assert_eq!(sys.peek(0xFF05), 0x00);
    assert!(!sys.bus.iflags.timer);
    sys.bus.tick(false);
    assert_eq!(sys.peek(0xFF05), 0x42);
    assert!(sys.bus.iflags.timer);
}

#[test]
fn tima_increments_every_period() {
    // With TAC=$06 (enabled, every 16 M-cycles) consecutive TIMA
    // increments sit exactly 16 cycles apart.
    let mut sys = fresh();
    sys.bus.timer.tac = 0x06;
    let mut last = sys.peek(0xFF05);
    let mut increments: Vec<u64> = Vec::new();
    for k in 0..200u64 {
        sys.bus.tick(false);
        let now = sys.peek(0xFF05);
        if now != last {
            increments.push(k);
            last = now;
        }
    }
    assert!(increments.len() >= 2);
    for w in increments.windows(2) {
        assert_eq!(w[1] - w[0], 16);
    }
}

#[test]
fn div_write_resets_counter() {
    let mut sys = fresh();
    for _ in 0..1000 {
        sys.bus.tick(false);
    }
    assert!(sys.peek(0xFF04) != 0);
    sys.bus.write(0xFF04, 0xAB);
    assert_eq!(sys.peek(0xFF04), 0);
}

#[test]
fn oam_dma_copies_160_bytes() {
    let mut sys = fresh();
    for i in 0..160u16 {
        sys.bus.write(0xC000 + i, i as u8);
    }
    sys.bus.write(0xFF46, 0xC0);
    for _ in 0..160 {
        sys.bus.tick(false);
    }
    for i in 0..160u16 {
        assert_eq!(sys.peek(0xFE00 + i), i as u8, "OAM byte {i}");
    }
    assert!(!sys.bus.dma.active);
}

#[test]
fn ly_advances_one_line_per_456_dots() {
    let mut sys = fresh();
    sys.bus.write(0xFF40, 0x80);
    assert_eq!(sys.peek(0xFF44), 0);
    // One tick is four dots; 114 ticks are one scanline.
    for _ in 0..114 {
        sys.bus.tick(false);
    }
    assert_eq!(sys.peek(0xFF44), 1);
    // A whole frame of 154 lines returns to line 0.
    for _ in 0..114 * 153 {
        sys.bus.tick(false);
    }
    assert_eq!(sys.peek(0xFF44), 0);
}

#[test]
fn stat_rising_edge_fires_once() {
    let mut sys = fresh();
    sys.bus.write(0xFF45, 0x48);
    sys.bus.write(0xFF41, 0x40);
    sys.bus.write(0xFF40, 0x80);
    let mut guard = 0u32;
    while sys.peek(0xFF44) != 0x48 {
        sys.bus.tick(false);
        guard += 1;
        assert!(guard < 20000, "LY must reach $48");
    }
    assert!(sys.bus.iflags.lcd, "LCD interrupt on the LY=LYC rising edge");
    // The line stays high for the rest of the scanline: no second edge.
    sys.bus.iflags.lcd = false;
    while sys.peek(0xFF44) == 0x48 {
        sys.bus.tick(false);
    }
    assert!(!sys.bus.iflags.lcd, "no second edge while the line stays high");
}

#[test]
fn vblank_raised_on_line_144() {
    let mut sys = fresh();
    sys.bus.write(0xFF40, 0x80);
    for _ in 0..114 * 144 {
        sys.bus.tick(false);
    }
    assert_eq!(sys.peek(0xFF44), 144);
    assert!(sys.bus.iflags.vblank);
    assert!(sys.bus.ppu.frame_ready);
}

#[test]
fn joypad_selects_and_interrupt() {
    let mut sys = fresh();
    // Nothing selected: the low nibble reads high.
    assert_eq!(sys.peek(0xFF00) & 0x0F, 0x0F);
    // Select the buttons and press A: bit 0 falls, the joypad interrupt
    // is raised on the falling edge.
    sys.bus.write(0xFF00, 0x10);
    assert!(!sys.bus.iflags.joypad);
    sys.press_key(INPUT_A);
    assert_eq!(sys.peek(0xFF00) & 0x0F, 0x0E);
    assert!(sys.bus.iflags.joypad);
    // Directions are on the other nibble selection.
    sys.bus.write(0xFF00, 0x20);
    assert_eq!(sys.peek(0xFF00) & 0x0F, 0x0F);
    sys.press_key(INPUT_RIGHT);
    assert_eq!(sys.peek(0xFF00) & 0x0F, 0x0E);
    sys.unpress_key(INPUT_RIGHT);
    assert_eq!(sys.peek(0xFF00) & 0x0F, 0x0F);
}

#[test]
fn sprite_pixel_rendered_over_background() {
    let mut sys = fresh();
    // Tile 0: low plane all ones, high plane zero: color index 1.
    for row in 0..8u16 {
        sys.bus.write(0x8000 + row * 2, 0xFF);
        sys.bus.write(0x8000 + row * 2 + 1, 0x00);
    }
    // One object at the screen origin using tile 0 and OBP0.
    sys.bus.write(0xFE00, 16);
    sys.bus.write(0xFE01, 8);
    sys.bus.write(0xFE02, 0);
    sys.bus.write(0xFE03, 0);
    // OBP0 maps color 1 to shade 1; BGP maps everything to white.
    sys.bus.write(0xFF48, 0x04);
    sys.bus.write(0xFF47, 0x00);
    // LCD on, background and objects enabled.
    sys.bus.write(0xFF40, 0x83);
    // Run past the drawing phase of line 0.
    for _ in 0..100 {
        sys.bus.tick(false);
    }
    let frame = sys.get_frame();
    assert_eq!(frame[0], Pixel { r: 0x60, g: 0x60, b: 0x60 }, "sprite pixel");
    assert_eq!(frame[8], Pixel { r: 0xFF, g: 0xFF, b: 0xFF }, "background pixel");
}

#[test]
fn wram_banking_echo_and_hram() {
    let mut sys = fresh();
    sys.bus.write(0xC123, 0x5A);
    assert_eq!(sys.peek(0xC123), 0x5A);
    // Echo RAM mirrors the write.
    assert_eq!(sys.peek(0xE123), 0x5A);
    sys.bus.write(0xFF80, 0x77);
    assert_eq!(sys.peek(0xFF80), 0x77);
}
