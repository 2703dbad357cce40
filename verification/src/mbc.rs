//! Memory bank controller: translates a logical cartridge address and the
//! controller's bank state into an offset of the ROM or RAM image, and
//! intercepts writes into the bank-control registers.

use vstd::prelude::*;

verus! {

/// The controller of a cartridge.  Only the bankless cartridge and MBC1
/// are implemented; the remaining kinds are recognized by the header
/// parser but behave as if nothing answered the bus.
#[derive(Debug, Clone, Copy, PartialEq, Eq, Structural)]
pub enum MemoryBankController {
    NoMbc,
    MBC1 { ram_enable: bool, rom_bank_number: u8, ram_bank_number: u8, banking_mode: bool },
    MBC2,
    MBC3,
    MBC5,
    MBC6,
    MBC7,
    MMM01,
    HuC1,
    HuC3,
}

/// The ROM offset an MBC1 read maps a bus address to, before masking by
/// the ROM size: the fixed-bank window can be moved by the high bank bits
/// in banking mode 1, and the switchable window uses the combined bank
/// number with bank 0 promoted to 1.
pub open spec fn mbc1_rom_offset(
    rom_bank_number: int,
    ram_bank_number: int,
    banking_mode: bool,
    addr: int,
) -> int {
    if addr < 0x4000 {
        if banking_mode {
            addr + ram_bank_number * 0x80000
        } else {
            addr
        }
    } else {
        let low5 = if rom_bank_number % 32 == 0 {
            1int
        } else {
            rom_bank_number % 32
        };
        (addr - 0x4000) + low5 * 0x4000 + ram_bank_number * 0x80000
    }
}

/// The RAM offset an MBC1 access maps a bus address to, before masking by
/// the RAM size: bank 0 outside banking mode 1, else the RAM bank bits.
pub open spec fn mbc1_ram_offset(ram_bank_number: int, banking_mode: bool, addr: int) -> int {
    if banking_mode {
        (addr - 0xA000) + ram_bank_number * 0x2000
    } else {
        addr - 0xA000
    }
}

impl MemoryBankController {
    /// The bankless controller.
    pub fn none() -> (r: MemoryBankController)
        ensures
            r == MemoryBankController::NoMbc,
    {
        MemoryBankController::NoMbc
    }

    /// A fresh MBC1 with RAM disabled, bank registers zero and banking
    /// mode 0.
    pub fn mbc1() -> (r: MemoryBankController)
        ensures
            r == (MemoryBankController::MBC1 {
                ram_enable: false,
                rom_bank_number: 0,
                ram_bank_number: 0,
                banking_mode: false,
            }),
    {
        MemoryBankController::MBC1 {
            ram_enable: false,
            rom_bank_number: 0,
            ram_bank_number: 0,
            banking_mode: false,
        }
    }

    /// The ROM offset (before masking) that a read of `addr` in
    /// `$0000-$7FFF` resolves to, or `None` when this controller does not
    /// answer ROM reads.
    pub open spec fn rom_offset_spec(self, addr: int) -> Option<int> {
        match self {
            MemoryBankController::NoMbc => Some(addr),
            MemoryBankController::MBC1 {
                ram_enable,
                rom_bank_number,
                ram_bank_number,
                banking_mode,
            } => Some(
                mbc1_rom_offset(rom_bank_number as int, ram_bank_number as int, banking_mode, addr),
            ),
            _ => None,
        }
    }

    /// The RAM offset (before masking) that an access of `addr` in
    /// `$A000-$BFFF` resolves to, or `None` when RAM is disabled or this
    /// controller does not answer.
    pub open spec fn ram_offset_spec(self, addr: int) -> Option<int> {
        match self {
            MemoryBankController::NoMbc => Some(addr - 0xA000),
            MemoryBankController::MBC1 {
                ram_enable,
                rom_bank_number,
                ram_bank_number,
                banking_mode,
            } => if ram_enable {
                Some(mbc1_ram_offset(ram_bank_number as int, banking_mode, addr))
            } else {
                None
            },
            _ => None,
        }
    }

    /// The controller state after a write to `addr` in the cartridge
    /// ranges; only MBC1 has control registers.
    pub open spec fn write_spec(self, addr: int, data: int) -> MemoryBankController {
        match self {
            MemoryBankController::MBC1 {
                ram_enable,
                rom_bank_number,
                ram_bank_number,
                banking_mode,
            } => {
                if addr < 0x2000 {
                    MemoryBankController::MBC1 {
                        ram_enable: data % 16 == 0x0A,
                        rom_bank_number,
                        ram_bank_number,
                        banking_mode,
                    }
                } else if addr < 0x4000 {
                    let low5 = if data % 32 == 0 {
                        1int
                    } else {
                        data % 32
                    };
                    MemoryBankController::MBC1 {
                        ram_enable,
                        rom_bank_number: low5 as u8,
                        ram_bank_number,
                        banking_mode,
                    }
                } else if addr < 0x6000 {
                    MemoryBankController::MBC1 {
                        ram_enable,
                        rom_bank_number,
                        ram_bank_number: (data % 4) as u8,
                        banking_mode,
                    }
                } else if addr < 0x8000 {
                    MemoryBankController::MBC1 {
                        ram_enable,
                        rom_bank_number,
                        ram_bank_number,
                        banking_mode: data % 2 == 1,
                    }
                } else {
                    self
                }
            }
            _ => self,
        }
    }

    /// Resolve a ROM read; mirrors `rom_offset_spec`.
    pub fn rom_offset(&self, addr: u16) -> (r: Option<u32>)
        requires
            addr < 0x8000,
        ensures
            match r {
                Some(o) => self.rom_offset_spec(addr as int) == Some(o as int),
                None => self.rom_offset_spec(addr as int) is None,
            },
    {
        match self {
            MemoryBankController::NoMbc => Some(addr as u32),
            MemoryBankController::MBC1 {
                ram_enable: _,
                rom_bank_number,
                ram_bank_number,
                banking_mode,
            } => {
                if addr < 0x4000 {
                    if *banking_mode {
                        Some(addr as u32 + (*ram_bank_number as u32) * 0x80000)
                    } else {
                        Some(addr as u32)
                    }
                } else {
                    let low5_raw = *rom_bank_number % 32;
                    let low5: u32 = if low5_raw == 0 {
                        1
                    } else {
                        low5_raw as u32
                    };
                    Some(
                        (addr as u32 - 0x4000) + low5 * 0x4000 + (*ram_bank_number as u32)
                            * 0x80000,
                    )
                }
            }
            _ => None,
        }
    }

    /// Resolve a cartridge-RAM access; mirrors `ram_offset_spec`.
    pub fn ram_offset(&self, addr: u16) -> (r: Option<u32>)
        requires
            0xA000 <= addr < 0xC000,
        ensures
            match r {
                Some(o) => self.ram_offset_spec(addr as int) == Some(o as int),
                None => self.ram_offset_spec(addr as int) is None,
            },
    {
        match self {
            MemoryBankController::NoMbc => Some((addr - 0xA000) as u32),
            MemoryBankController::MBC1 {
                ram_enable,
                rom_bank_number: _,
                ram_bank_number,
                banking_mode,
            } => {
                if !*ram_enable {
                    None
                } else if *banking_mode {
                    Some((addr - 0xA000) as u32 + (*ram_bank_number as u32) * 0x2000)
                } else {
                    Some((addr - 0xA000) as u32)
                }
            }
            _ => None,
        }
    }

    /// Apply a write to the bank-control registers; mirrors `write_spec`.
    pub fn write(&mut self, addr: u16, data: u8)
        requires
            old(self).control_write_in_range(addr as int),
        ensures
            *final(self) == old(self).write_spec(addr as int, data as int),
    {
        match self {
            MemoryBankController::MBC1 {
                ram_enable,
                rom_bank_number,
                ram_bank_number,
                banking_mode,
            } => {
                if addr < 0x2000 {
                    *ram_enable = data % 16 == 0x0A;
                } else if addr < 0x4000 {
                    let low5 = data % 32;
                    *rom_bank_number = if low5 == 0 {
                        1
                    } else {
                        low5
                    };
                } else if addr < 0x6000 {
                    *ram_bank_number = data % 4;
                } else if addr < 0x8000 {
                    *banking_mode = data % 2 == 1;
                }
            }
            _ => {}
        }
    }

    /// The addresses at which `write` is meaningful.
    pub open spec fn control_write_in_range(self, addr: int) -> bool {
        addr < 0x8000
    }
}

} // verus!
