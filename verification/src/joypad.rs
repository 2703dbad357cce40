//! Joypad state: the button bitmask pushed by the host, the `P1` register
//! that exposes a selected nibble of it, and a builder that tracks
//! individual buttons.

use vstd::prelude::*;

verus! {

/// A set of pressed buttons, one bit per button: the low nibble holds the
/// directions, the high nibble the buttons.
#[derive(Debug, Clone, Copy, PartialEq, Eq, Structural)]
pub struct Input {
    pub bits: u8,
}

pub const INPUT_RIGHT: u8 = 0x01;

pub const INPUT_LEFT: u8 = 0x02;

pub const INPUT_UP: u8 = 0x04;

pub const INPUT_DOWN: u8 = 0x08;

pub const INPUT_A: u8 = 0x10;

pub const INPUT_B: u8 = 0x20;

pub const INPUT_SELECT: u8 = 0x40;

pub const INPUT_START: u8 = 0x80;

impl Input {
    /// No button pressed.
    pub fn new() -> (r: Input)
        ensures
            r.bits == 0,
    {
        Input { bits: 0 }
    }

    /// The `P1` nibble for the buttons: a cleared bit means the button is
    /// pressed.
    pub fn buttons_nibble(self) -> (r: u8)
        ensures
            r as int == 15 - self.bits as int / 16,
    {
        15 - self.bits / 16
    }

    /// The `P1` nibble for the directions: a cleared bit means the
    /// direction is pressed.
    pub fn dpad_nibble(self) -> (r: u8)
        ensures
            r as int == 15 - self.bits as int % 16,
    {
        15 - self.bits % 16
    }

    /// This set with the buttons of `mask` added.
    pub fn press_mask(self, mask: u8) -> (r: Input)
        ensures
            r.bits == self.bits | mask,
    {
        Input { bits: self.bits | mask }
    }

    /// This set with the buttons of `mask` removed.
    pub fn release_mask(self, mask: u8) -> (r: Input)
        ensures
            r.bits == self.bits & !mask,
    {
        Input { bits: self.bits & !mask }
    }
}

/// The `P1` register at `$FF00`: two select bits chosen by writes and a
/// sampled nibble of the current input.
#[derive(Debug, Clone, Copy, PartialEq, Eq, Structural)]
pub struct P1 {
    pub input: Input,
    pub select_buttons: bool,
    pub select_dpad: bool,
}

/// The `P1` nibble of the buttons, as a spec value.
pub open spec fn buttons_nibble_spec(i: Input) -> u8 {
    (15 - i.bits as int / 16) as u8
}

/// The `P1` nibble of the directions, as a spec value.
pub open spec fn dpad_nibble_spec(i: Input) -> u8 {
    (15 - i.bits as int % 16) as u8
}

/// The readable value of `P1`: bits 6-7 are 1, bits 4-5 are the select
/// bits (0 = selected), and the low nibble is the AND of every selected
/// nibble (0 = pressed).
pub open spec fn p1_read_spec(p: P1) -> int {
    let lower = p1_low_nibble(p);
    let upper = 0xC0 + (if p.select_buttons { 0int } else { 0x20 }) + (if p.select_dpad {
        0int
    } else {
        0x10
    });
    upper + lower
}

/// The low nibble of `P1`: `$F` with each selected nibble ANDed in.
pub open spec fn p1_low_nibble(p: P1) -> u8 {
    let with_buttons = if p.select_buttons {
        15u8 & buttons_nibble_spec(p.input)
    } else {
        15u8
    };
    if p.select_dpad {
        with_buttons & dpad_nibble_spec(p.input)
    } else {
        with_buttons
    }
}

/// The internal interrupt line of the joypad: high while no selected
/// button is pressed.  The joypad interrupt fires on its high-to-low
/// transitions.
pub open spec fn p1_line_high(p: P1) -> bool {
    p1_low_nibble(p) == 15
}

impl P1 {
    /// The register at power-on: nothing selected, nothing pressed.
    pub fn new() -> (r: P1)
        ensures
            r == (P1 { input: Input { bits: 0 }, select_buttons: false, select_dpad: false }),
    {
        P1 { input: Input { bits: 0 }, select_buttons: false, select_dpad: false }
    }

    /// Read the register value seen on the bus.
    pub fn read(&self) -> (r: u8)
        ensures
            r as int == p1_read_spec(*self),
    {
        let lower = self.low_nibble();
        let mut upper: u8 = 0xC0;
        if !self.select_buttons {
            upper = upper + 0x20;
        }
        if !self.select_dpad {
            upper = upper + 0x10;
        }
        upper + lower
    }

    /// A write only changes the two select bits; a written 0 selects.
    pub fn write(&mut self, val: u8)
        ensures
            *final(self) == (P1 {
                select_buttons: val as int % 64 < 32,
                select_dpad: val as int % 32 < 16,
                ..*old(self)
            }),
    {
        self.select_buttons = val % 64 < 32;
        self.select_dpad = val % 32 < 16;
    }

    /// Replace the whole input state.  The result says whether the
    /// interrupt line fell, which raises the joypad interrupt.
    pub fn set_input(&mut self, input: Input) -> (irq: bool)
        ensures
            *final(self) == (P1 { input, ..*old(self) }),
            irq == (p1_line_high(*old(self)) && !p1_line_high(*final(self))),
    {
        let was_high = self.line_high();
        self.input = input;
        let is_high = self.line_high();
        was_high && !is_high
    }

    /// Press the buttons of `mask`; the result reports a falling edge of
    /// the interrupt line.
    pub fn press(&mut self, mask: u8) -> (irq: bool)
        ensures
            *final(self) == (P1 { input: (Input { bits: old(self).input.bits | mask }), ..*old(self) }),
            irq == (p1_line_high(*old(self)) && !p1_line_high(*final(self))),
    {
        let was_high = self.line_high();
        self.input = self.input.press_mask(mask);
        let is_high = self.line_high();
        was_high && !is_high
    }

    /// Release the buttons of `mask`; the result reports a falling edge of
    /// the interrupt line.
    pub fn unpress(&mut self, mask: u8) -> (irq: bool)
        ensures
            *final(self) == (P1 { input: (Input { bits: old(self).input.bits & !mask }), ..*old(self) }),
            irq == (p1_line_high(*old(self)) && !p1_line_high(*final(self))),
    {
        let was_high = self.line_high();
        self.input = self.input.release_mask(mask);
        let is_high = self.line_high();
        was_high && !is_high
    }

    /// Whether some selected button is currently held: what wakes the CPU
    /// out of STOP.
    pub fn any_selected_pressed(&self) -> (r: bool)
        ensures
            r == !p1_line_high(*self),
    {
        !self.line_high()
    }

    fn line_high(&self) -> (r: bool)
        ensures
            r == p1_line_high(*self),
    {
        self.low_nibble() == 15
    }

    fn low_nibble(&self) -> (r: u8)
        ensures
            r == p1_low_nibble(*self),
            r <= 15,
    {
        let mut lower: u8 = 15;
        if self.select_buttons {
            let n = self.input.buttons_nibble();
            proof {
                assert(15u8 & n <= 15) by (bit_vector);
            }
            lower = lower & n;
        }
        if self.select_dpad {
            let m = self.input.dpad_nibble();
            let ghost l0 = lower;
            proof {
                assert(l0 & m <= l0) by (bit_vector);
            }
            lower = lower & m;
        }
        lower
    }
}

/// Host-side button tracker: accumulates the pressed-button set one
/// button at a time, in the layout the `P1` register samples.
#[derive(Debug, Clone, Copy, PartialEq, Eq, Structural)]
pub struct JoypadInput {
    pub input: Input,
}

impl JoypadInput {
    pub fn new() -> (r: JoypadInput)
        ensures
            r.input.bits == 0,
    {
        JoypadInput { input: Input { bits: 0 } }
    }

    pub fn set_down(&mut self)
        ensures
            final(self).input.bits == old(self).input.bits | INPUT_DOWN,
    {
        self.input = self.input.press_mask(INPUT_DOWN);
    }

    pub fn set_up(&mut self)
        ensures
            final(self).input.bits == old(self).input.bits | INPUT_UP,
    {
        self.input = self.input.press_mask(INPUT_UP);
    }

    pub fn set_left(&mut self)
        ensures
            final(self).input.bits == old(self).input.bits | INPUT_LEFT,
    {
        self.input = self.input.press_mask(INPUT_LEFT);
    }

    pub fn set_right(&mut self)
        ensures
            final(self).input.bits == old(self).input.bits | INPUT_RIGHT,
    {
        self.input = self.input.press_mask(INPUT_RIGHT);
    }

    pub fn reset_down(&mut self)
        ensures
            final(self).input.bits == old(self).input.bits & !INPUT_DOWN,
    {
        self.input = self.input.release_mask(INPUT_DOWN);
    }

    pub fn reset_up(&mut self)
        ensures
            final(self).input.bits == old(self).input.bits & !INPUT_UP,
    {
        self.input = self.input.release_mask(INPUT_UP);
    }

    pub fn reset_left(&mut self)
        ensures
            final(self).input.bits == old(self).input.bits & !INPUT_LEFT,
    {
        self.input = self.input.release_mask(INPUT_LEFT);
    }

    pub fn reset_right(&mut self)
        ensures
            final(self).input.bits == old(self).input.bits & !INPUT_RIGHT,
    {
        self.input = self.input.release_mask(INPUT_RIGHT);
    }

    pub fn set_start(&mut self)
        ensures
            final(self).input.bits == old(self).input.bits | INPUT_START,
    {
        self.input = self.input.press_mask(INPUT_START);
    }

    pub fn set_select(&mut self)
        ensures
            final(self).input.bits == old(self).input.bits | INPUT_SELECT,
    {
        self.input = self.input.press_mask(INPUT_SELECT);
    }

    pub fn set_b(&mut self)
        ensures
            final(self).input.bits == old(self).input.bits | INPUT_B,
    {
        self.input = self.input.press_mask(INPUT_B);
    }

    pub fn set_a(&mut self)
        ensures
            final(self).input.bits == old(self).input.bits | INPUT_A,
    {
        self.input = self.input.press_mask(INPUT_A);
    }

    pub fn reset_start(&mut self)
        ensures
            final(self).input.bits == old(self).input.bits & !INPUT_START,
    {
        self.input = self.input.release_mask(INPUT_START);
    }

    pub fn reset_select(&mut self)
        ensures
            final(self).input.bits == old(self).input.bits & !INPUT_SELECT,
    {
        self.input = self.input.release_mask(INPUT_SELECT);
    }

    pub fn reset_b(&mut self)
        ensures
            final(self).input.bits == old(self).input.bits & !INPUT_B,
    {
        self.input = self.input.release_mask(INPUT_B);
    }

    pub fn reset_a(&mut self)
        ensures
            final(self).input.bits == old(self).input.bits & !INPUT_A,
    {
        self.input = self.input.release_mask(INPUT_A);
    }
}

} // verus!
