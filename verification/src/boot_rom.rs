//! Boot ROM overlay: a 256-byte startup program mapped over `$0000-$00FF`
//! until a write to `$FF50` locks it out.  The program leaves the
//! registers in the documented post-boot state of the monochrome machine
//! (`AF=$01B0, BC=$0013, DE=$00D8, HL=$014D, SP=$FFFE`), disables the
//! overlay and falls through to the cartridge entry point at `$0100`.

use vstd::prelude::*;

use crate::bus::AddressingError;

verus! {

/// The startup program, byte by byte: set up `SP`, load the documented
/// register values (the flags arrive through a `push`/`pop` of `BC` into
/// `AF`), pad with no-ops, and end with the write to `$FF50` at `$00FE`
/// so that the next fetch lands on `$0100`.
#[verifier::opaque]
pub open spec fn boot_byte(addr: int) -> int {
    if addr == 0 {
        0x31  // ld sp, $FFFE
    } else if addr == 1 {
        0xFE
    } else if addr == 2 {
        0xFF
    } else if addr == 3 {
        0x01  // ld bc, $01B0
    } else if addr == 4 {
        0xB0
    } else if addr == 5 {
        0x01
    } else if addr == 6 {
        0xC5  // push bc
    } else if addr == 7 {
        0xF1  // pop af
    } else if addr == 8 {
        0x01  // ld bc, $0013
    } else if addr == 9 {
        0x13
    } else if addr == 10 {
        0x00
    } else if addr == 11 {
        0x11  // ld de, $00D8
    } else if addr == 12 {
        0xD8
    } else if addr == 13 {
        0x00
    } else if addr == 14 {
        0x21  // ld hl, $014D
    } else if addr == 15 {
        0x4D
    } else if addr == 16 {
        0x01
    } else if addr == 0xFC {
        0x3E  // ld a, $01
    } else if addr == 0xFD {
        0x01
    } else if addr == 0xFE {
        0xE0  // ldh [$50], a: lock the overlay out
    } else if addr == 0xFF {
        0x50
    } else {
        0x00  // no-op padding up to the tail
    }
}

/// The startup program byte at an overlay address.
pub fn boot_program_byte(addr: u16) -> (r: u8)
    requires
        addr < 0x100,
    ensures
        r as int == boot_byte(addr as int),
{
    proof {
        reveal(boot_byte);
    }
    if addr == 0 {
        0x31
    } else if addr == 1 {
        0xFE
    } else if addr == 2 {
        0xFF
    } else if addr == 3 {
        0x01
    } else if addr == 4 {
        0xB0
    } else if addr == 5 {
        0x01
    } else if addr == 6 {
        0xC5
    } else if addr == 7 {
        0xF1
    } else if addr == 8 {
        0x01
    } else if addr == 9 {
        0x13
    } else if addr == 10 {
        0x00
    } else if addr == 11 {
        0x11
    } else if addr == 12 {
        0xD8
    } else if addr == 13 {
        0x00
    } else if addr == 14 {
        0x21
    } else if addr == 15 {
        0x4D
    } else if addr == 16 {
        0x01
    } else if addr == 0xFC {
        0x3E
    } else if addr == 0xFD {
        0x01
    } else if addr == 0xFE {
        0xE0
    } else if addr == 0xFF {
        0x50
    } else {
        0x00
    }
}

/// The boot ROM overlay and its one-way enable latch.
#[derive(Debug, Clone, Copy, PartialEq, Eq, Structural)]
pub struct BootRom {
    pub enabled: bool,
}

impl BootRom {
    /// A fresh machine boots with the overlay enabled.
    pub fn new() -> (r: BootRom)
        ensures
            r.enabled,
    {
        BootRom { enabled: true }
    }

    /// Latch the overlay off; there is no way back.
    pub fn disable(&mut self)
        ensures
            !final(self).enabled,
    {
        self.enabled = false;
    }

    pub fn is_enabled(&self) -> (r: bool)
        ensures
            r == self.enabled,
    {
        self.enabled
    }

    /// Read the overlay: the program byte while enabled and in range,
    /// `Disabled` after the latch, `Unmapped` past the first page.
    pub fn read(&self, addr: u16) -> (r: Result<u8, AddressingError>)
        ensures
            r == self.read_spec(addr as int),
    {
        if addr >= 0x100 {
            Err(AddressingError::Unmapped)
        } else if !self.enabled {
            Err(AddressingError::Disabled)
        } else {
            Ok(boot_program_byte(addr))
        }
    }

    /// What a read of the overlay answers.
    pub open spec fn read_spec(self, addr: int) -> Result<u8, AddressingError> {
        if addr >= 0x100 {
            Err(AddressingError::Unmapped)
        } else if !self.enabled {
            Err(AddressingError::Disabled)
        } else {
            Ok(boot_byte(addr) as u8)
        }
    }
}

} // verus!
