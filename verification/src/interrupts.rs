//! Interrupt controller state: the five request/enable bits and the
//! prioritized selection of the interrupt to service.

use vstd::prelude::*;

verus! {

/// One of the five interrupt sources, in priority order (highest first).
#[derive(Debug, Clone, Copy, PartialEq, Eq, Structural)]
pub enum Interrupt {
    VBLANK,
    LCD,
    TIMER,
    SERIAL,
    JOYPAD,
}

/// The handler vector of an interrupt source.
pub open spec fn handler_address_spec(i: Interrupt) -> int {
    match i {
        Interrupt::VBLANK => 0x40,
        Interrupt::LCD => 0x48,
        Interrupt::TIMER => 0x50,
        Interrupt::SERIAL => 0x58,
        Interrupt::JOYPAD => 0x60,
    }
}

impl Interrupt {
    /// The address the CPU jumps to when servicing this interrupt.
    pub fn handler_address(&self) -> (r: u16)
        ensures
            r as int == handler_address_spec(*self),
    {
        match self {
            Interrupt::VBLANK => 0x40,
            Interrupt::LCD => 0x48,
            Interrupt::TIMER => 0x50,
            Interrupt::SERIAL => 0x58,
            Interrupt::JOYPAD => 0x60,
        }
    }
}

/// A five-bit interrupt vector: one flag per source.  Serves both as the
/// request register `IF` and the enable register `IE`.
#[derive(Debug, Clone, Copy, PartialEq, Eq, Structural)]
pub struct InterruptFlags {
    pub vblank: bool,
    pub lcd: bool,
    pub timer: bool,
    pub serial: bool,
    pub joypad: bool,
}

/// The five flags encoded as the low bits of a byte.
pub open spec fn if_byte(fl: InterruptFlags) -> int {
    (if fl.vblank { 1int } else { 0 })
        + (if fl.lcd { 2int } else { 0 })
        + (if fl.timer { 4int } else { 0 })
        + (if fl.serial { 8int } else { 0 })
        + (if fl.joypad { 16int } else { 0 })
}

/// The five flags decoded from the low bits of a byte.
pub open spec fn if_of_byte(v: int) -> InterruptFlags {
    InterruptFlags {
        vblank: v % 2 == 1,
        lcd: v % 4 >= 2,
        timer: v % 8 >= 4,
        serial: v % 16 >= 8,
        joypad: v % 32 >= 16,
    }
}

/// The flag of a given source.
pub open spec fn has_source(fl: InterruptFlags, i: Interrupt) -> bool {
    match i {
        Interrupt::VBLANK => fl.vblank,
        Interrupt::LCD => fl.lcd,
        Interrupt::TIMER => fl.timer,
        Interrupt::SERIAL => fl.serial,
        Interrupt::JOYPAD => fl.joypad,
    }
}

/// The pending source of highest priority, if any.
pub open spec fn highest_priority_spec(fl: InterruptFlags) -> Option<Interrupt> {
    if fl.vblank {
        Some(Interrupt::VBLANK)
    } else if fl.lcd {
        Some(Interrupt::LCD)
    } else if fl.timer {
        Some(Interrupt::TIMER)
    } else if fl.serial {
        Some(Interrupt::SERIAL)
    } else if fl.joypad {
        Some(Interrupt::JOYPAD)
    } else {
        None
    }
}

/// The pairwise conjunction of two vectors: the interrupts both requested
/// and enabled.
pub open spec fn if_and(a: InterruptFlags, b: InterruptFlags) -> InterruptFlags {
    InterruptFlags {
        vblank: a.vblank && b.vblank,
        lcd: a.lcd && b.lcd,
        timer: a.timer && b.timer,
        serial: a.serial && b.serial,
        joypad: a.joypad && b.joypad,
    }
}

impl InterruptFlags {
    /// The empty vector.
    pub fn new() -> (r: InterruptFlags)
        ensures
            r == InterruptFlags::empty_spec(),
    {
        InterruptFlags { vblank: false, lcd: false, timer: false, serial: false, joypad: false }
    }

    pub open spec fn empty_spec() -> InterruptFlags {
        InterruptFlags { vblank: false, lcd: false, timer: false, serial: false, joypad: false }
    }

    /// Encode as a register byte; the unused upper three bits read as 1.
    pub fn to_byte(self) -> (r: u8)
        ensures
            r as int == if_byte(self) + 0xE0,
    {
        let mut r: u8 = 0xE0;
        if self.vblank {
            r = r + 1;
        }
        if self.lcd {
            r = r + 2;
        }
        if self.timer {
            r = r + 4;
        }
        if self.serial {
            r = r + 8;
        }
        if self.joypad {
            r = r + 16;
        }
        r
    }

    /// Decode from a written byte; the upper three bits are discarded.
    pub fn from_byte(v: u8) -> (r: InterruptFlags)
        ensures
            r == if_of_byte(v as int),
    {
        InterruptFlags {
            vblank: v % 2 == 1,
            lcd: v % 4 >= 2,
            timer: v % 8 >= 4,
            serial: v % 16 >= 8,
            joypad: v % 32 >= 16,
        }
    }

    /// Whether any source is set.
    pub fn has_interrupt(&self) -> (r: bool)
        ensures
            r == (highest_priority_spec(*self) is Some),
    {
        self.vblank || self.lcd || self.timer || self.serial || self.joypad
    }

    /// The set source of highest priority: VBlank before LCD before Timer
    /// before Serial before Joypad.
    pub fn highest_priority(&self) -> (r: Option<Interrupt>)
        ensures
            r == highest_priority_spec(*self),
    {
        if self.vblank {
            Some(Interrupt::VBLANK)
        } else if self.lcd {
            Some(Interrupt::LCD)
        } else if self.timer {
            Some(Interrupt::TIMER)
        } else if self.serial {
            Some(Interrupt::SERIAL)
        } else if self.joypad {
            Some(Interrupt::JOYPAD)
        } else {
            None
        }
    }

    /// Clear every source.
    pub fn clear(&mut self)
        ensures
            *final(self) == InterruptFlags::empty_spec(),
    {
        *self = InterruptFlags::new();
    }

    /// Clear one source, leaving the others.
    pub fn clear_source(&mut self, i: Interrupt)
        ensures
            !has_source(*final(self), i),
            forall|j: Interrupt| j != i ==> has_source(*final(self), j) == has_source(*old(self), j),
    {
        match i {
            Interrupt::VBLANK => self.vblank = false,
            Interrupt::LCD => self.lcd = false,
            Interrupt::TIMER => self.timer = false,
            Interrupt::SERIAL => self.serial = false,
            Interrupt::JOYPAD => self.joypad = false,
        }
    }

    /// Raise one source, leaving the others.
    pub fn set_source(&mut self, i: Interrupt)
        ensures
            has_source(*final(self), i),
            forall|j: Interrupt| j != i ==> has_source(*final(self), j) == has_source(*old(self), j),
    {
        match i {
            Interrupt::VBLANK => self.vblank = true,
            Interrupt::LCD => self.lcd = true,
            Interrupt::TIMER => self.timer = true,
            Interrupt::SERIAL => self.serial = true,
            Interrupt::JOYPAD => self.joypad = true,
        }
    }

    /// The interrupts both in this vector and in `other`; what the CPU
    /// samples from `IF` and `IE`.
    pub fn and(self, other: InterruptFlags) -> (r: InterruptFlags)
        ensures
            r == if_and(self, other),
    {
        InterruptFlags {
            vblank: self.vblank && other.vblank,
            lcd: self.lcd && other.lcd,
            timer: self.timer && other.timer,
            serial: self.serial && other.serial,
            joypad: self.joypad && other.joypad,
        }
    }
}

/// The highest-priority selection is sound: it returns a set source, and
/// no source of higher priority is set.
pub proof fn lemma_highest_priority_sound(fl: InterruptFlags)
    ensures
        highest_priority_spec(fl) matches Some(i) ==> has_source(fl, i),
        highest_priority_spec(fl) is None ==> fl == InterruptFlags::empty_spec(),
{
}

} // verus!
