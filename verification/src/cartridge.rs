//! Cartridge: the ROM image, the battery-backed external RAM and the
//! memory bank controller chosen by the header, together with the header
//! parse that picks them.

use vstd::prelude::*;

use crate::bus::AddressingError;
use crate::mbc::MemoryBankController;

verus! {

/// A parsed cartridge.
#[derive(Debug)]
pub struct Cartridge {
    pub rom: Vec<u8>,
    pub ram: Vec<u8>,
    pub mbc: MemoryBankController,
    pub battery: bool,
    /// The title bytes from `$0134-$013E`, up to the first NUL.
    pub title: Vec<u8>,
    /// The CGB flag byte at `$0143`.
    pub cgb_flag: u8,
}

/// The failure of a header parse.
#[derive(Debug, Clone, Copy, PartialEq, Eq, Structural)]
pub enum CartridgeParseError {
    /// The cartridge-type byte at `$0147` names no controller this
    /// library knows.
    UnknownCartridgeType(u8),
}

/// A header byte; bytes past the end of a short image read as zero.
pub open spec fn header_byte(rom: Seq<u8>, addr: int) -> int {
    if 0 <= addr < rom.len() {
        rom[addr] as int
    } else {
        0
    }
}

/// The number of external-RAM banks a RAM-size code asks for.
pub open spec fn ram_bank_count_of(code: int) -> int {
    if code == 0x02 {
        1
    } else if code == 0x03 {
        4
    } else if code == 0x04 {
        16
    } else if code == 0x05 {
        8
    } else {
        0
    }
}

/// Whether a cartridge-type byte names a controller the parser accepts.
pub open spec fn known_cartridge_type(t: int) -> bool {
    t == 0x00 || t == 0x01 || t == 0x02 || t == 0x03 || t == 0x05 || t == 0x06 || t == 0x0B
        || t == 0x0C || t == 0x0D || t == 0x0F || t == 0x10 || t == 0x11 || t == 0x12 || t == 0x13
        || t == 0x19 || t == 0x1A || t == 0x1B || t == 0x1C || t == 0x1D || t == 0x1E || t == 0x20
        || t == 0x22 || t == 0xFE || t == 0xFF
}

/// The controller a cartridge-type byte selects.
pub open spec fn mbc_of_type(t: int) -> MemoryBankController {
    if t == 0x00 {
        MemoryBankController::NoMbc
    } else if t == 0x01 || t == 0x02 || t == 0x03 {
        MemoryBankController::MBC1 {
            ram_enable: false,
            rom_bank_number: 0,
            ram_bank_number: 0,
            banking_mode: false,
        }
    } else if t == 0x05 || t == 0x06 {
        MemoryBankController::MBC2
    } else if t == 0x0B || t == 0x0C || t == 0x0D {
        MemoryBankController::MMM01
    } else if t == 0x0F || t == 0x10 || t == 0x11 || t == 0x12 || t == 0x13 {
        MemoryBankController::MBC3
    } else if t == 0x19 || t == 0x1A || t == 0x1B || t == 0x1C || t == 0x1D || t == 0x1E {
        MemoryBankController::MBC5
    } else if t == 0x20 {
        MemoryBankController::MBC6
    } else if t == 0x22 {
        MemoryBankController::MBC7
    } else if t == 0xFE {
        MemoryBankController::HuC3
    } else {
        MemoryBankController::HuC1
    }
}

/// Whether a cartridge-type byte carries external RAM.
pub open spec fn has_ram_of_type(t: int) -> bool {
    t == 0x02 || t == 0x03 || t == 0x0C || t == 0x0D || t == 0x10 || t == 0x12 || t == 0x13
        || t == 0x1A || t == 0x1B || t == 0x1D || t == 0x1E || t == 0x22 || t == 0xFF
}

/// Whether a cartridge-type byte carries a battery (its RAM persists).
pub open spec fn battery_of_type(t: int) -> bool {
    t == 0x03 || t == 0x06 || t == 0x0D || t == 0x0F || t == 0x10 || t == 0x13 || t == 0x1B
        || t == 0x1E || t == 0x22 || t == 0xFF
}

/// The length of the title: the index of the first NUL among the eleven
/// title bytes, or eleven when none is NUL.
pub open spec fn title_len(rom: Seq<u8>, k: int) -> int
    decreases 11 - k,
{
    if k < 0 || k >= 11 {
        11
    } else if header_byte(rom, 0x134 + k) == 0 {
        k
    } else {
        title_len(rom, k + 1)
    }
}

impl Cartridge {
    /// Parse a ROM image: read the controller kind, RAM size and title
    /// from the header, and allocate the external RAM zeroed.  The only
    /// failure is an unknown cartridge-type byte.
    pub fn from_rom(rom: Vec<u8>) -> (r: Result<Cartridge, CartridgeParseError>)
        ensures
            r is Ok <==> known_cartridge_type(header_byte(rom@, 0x147)),
            r matches Err(CartridgeParseError::UnknownCartridgeType(t)) ==> t as int == header_byte(
                rom@,
                0x147,
            ),
            r matches Ok(c) ==> c.rom@ == rom@ && c.mbc == mbc_of_type(header_byte(rom@, 0x147))
                && c.battery == battery_of_type(header_byte(rom@, 0x147)) && c.ram@ =~= Seq::new(
                Cartridge::ram_len_spec(rom@),
                |i: int| 0u8,
            ) && c.cgb_flag as int == header_byte(rom@, 0x143) && c.title@ =~= Seq::new(
                title_len(rom@, 0) as nat,
                |i: int| header_byte(rom@, 0x134 + i) as u8,
            ),
    {
        let cartridge_type = Self::read_header(&rom, 0x147);
        let known = Self::type_is_known(cartridge_type);
        if !known {
            return Err(CartridgeParseError::UnknownCartridgeType(cartridge_type));
        }
        let mbc = Self::type_mbc(cartridge_type);
        let battery = Self::type_battery(cartridge_type);
        let has_ram = Self::type_has_ram(cartridge_type);
        let ram_size_code = Self::read_header(&rom, 0x149);
        let bank_count: usize = if ram_size_code == 0x02 {
            1
        } else if ram_size_code == 0x03 {
            4
        } else if ram_size_code == 0x04 {
            16
        } else if ram_size_code == 0x05 {
            8
        } else {
            0
        };
        let ram_len: usize = if has_ram {
            bank_count * 0x2000
        } else {
            0
        };
        let mut ram: Vec<u8> = Vec::new();
        let mut i: usize = 0;
        while i < ram_len
            invariant
                i <= ram_len,
                ram@ =~= Seq::new(i as nat, |j: int| 0u8),
            decreases ram_len - i,
        {
            ram.push(0);
            i = i + 1;
        }
        let cgb_flag = Self::read_header(&rom, 0x143);
        let mut title: Vec<u8> = Vec::new();
        let mut k: usize = 0;
        let mut stopped = false;
        while k < 11 && !stopped
            invariant
                k <= 11,
                title@ =~= Seq::new(k as nat, |j: int| header_byte(rom@, 0x134 + j) as u8),
                forall|j: int| 0 <= j < k ==> #[trigger] header_byte(rom@, 0x134 + j) != 0,
                stopped ==> k < 11 && header_byte(rom@, 0x134 + k) == 0,
                title_len(rom@, k as int) == title_len(rom@, 0),
            decreases 11 - k, (if stopped { 0int } else { 1 }),
        {
            let b = Self::read_header(&rom, 0x134 + k);
            if b == 0 {
                stopped = true;
            } else {
                title.push(b);
                k = k + 1;
            }
        }
        proof {
            if stopped {
                assert(title_len(rom@, k as int) == k);
            } else {
                assert(title_len(rom@, 11) == 11);
            }
            assert(title_len(rom@, 0) == k);
            assert(title@ =~= Seq::new(
                title_len(rom@, 0) as nat,
                |i: int| header_byte(rom@, 0x134 + i) as u8,
            ));
        }
        Ok(Cartridge { rom, ram, mbc, battery, title, cgb_flag })
    }

    /// The external-RAM length the header asks for.
    pub open spec fn ram_len_spec(rom: Seq<u8>) -> nat {
        if has_ram_of_type(header_byte(rom, 0x147)) {
            (ram_bank_count_of(header_byte(rom, 0x149)) * 0x2000) as nat
        } else {
            0
        }
    }

    fn read_header(rom: &Vec<u8>, addr: usize) -> (r: u8)
        ensures
            r as int == header_byte(rom@, addr as int),
    {
        if addr < rom.len() {
            rom[addr]
        } else {
            0
        }
    }

    fn type_is_known(t: u8) -> (r: bool)
        ensures
            r == known_cartridge_type(t as int),
    {
        t == 0x00 || t == 0x01 || t == 0x02 || t == 0x03 || t == 0x05 || t == 0x06 || t == 0x0B
            || t == 0x0C || t == 0x0D || t == 0x0F || t == 0x10 || t == 0x11 || t == 0x12
            || t == 0x13 || t == 0x19 || t == 0x1A || t == 0x1B || t == 0x1C || t == 0x1D
            || t == 0x1E || t == 0x20 || t == 0x22 || t == 0xFE || t == 0xFF
    }

    fn type_mbc(t: u8) -> (r: MemoryBankController)
        ensures
            r == mbc_of_type(t as int),
    {
        if t == 0x00 {
            MemoryBankController::none()
        } else if t == 0x01 || t == 0x02 || t == 0x03 {
            MemoryBankController::mbc1()
        } else if t == 0x05 || t == 0x06 {
            MemoryBankController::MBC2
        } else if t == 0x0B || t == 0x0C || t == 0x0D {
            MemoryBankController::MMM01
        } else if t == 0x0F || t == 0x10 || t == 0x11 || t == 0x12 || t == 0x13 {
            MemoryBankController::MBC3
        } else if t == 0x19 || t == 0x1A || t == 0x1B || t == 0x1C || t == 0x1D || t == 0x1E {
            MemoryBankController::MBC5
        } else if t == 0x20 {
            MemoryBankController::MBC6
        } else if t == 0x22 {
            MemoryBankController::MBC7
        } else if t == 0xFE {
            MemoryBankController::HuC3
        } else {
            MemoryBankController::HuC1
        }
    }

    fn type_has_ram(t: u8) -> (r: bool)
        ensures
            r == has_ram_of_type(t as int),
    {
        t == 0x02 || t == 0x03 || t == 0x0C || t == 0x0D || t == 0x10 || t == 0x12 || t == 0x13
            || t == 0x1A || t == 0x1B || t == 0x1D || t == 0x1E || t == 0x22 || t == 0xFF
    }

    fn type_battery(t: u8) -> (r: bool)
        ensures
            r == battery_of_type(t as int),
    {
        t == 0x03 || t == 0x06 || t == 0x0D || t == 0x0F || t == 0x10 || t == 0x13 || t == 0x1B
            || t == 0x1E || t == 0x22 || t == 0xFF
    }

    /// What a read of ROM address space returns: the byte at the
    /// controller's offset, masked into the image by wrapping, or nothing
    /// when no controller answers or the image is empty.
    pub open spec fn rom_read_spec(self, addr: int) -> Option<u8> {
        match self.mbc.rom_offset_spec(addr) {
            Some(o) => if self.rom.len() > 0 {
                Some(self.rom@[o % self.rom@.len() as int])
            } else {
                None
            },
            None => None,
        }
    }

    /// What a read of external-RAM address space returns.
    pub open spec fn ram_read_spec(self, addr: int) -> Option<u8> {
        match self.mbc.ram_offset_spec(addr) {
            Some(o) => if self.ram.len() > 0 {
                Some(self.ram@[o % self.ram@.len() as int])
            } else {
                None
            },
            None => None,
        }
    }

    /// The external-RAM contents after a write: updated at the masked
    /// controller offset when the write lands in `$A000-$BFFF` and the
    /// controller lets it through, unchanged otherwise.
    pub open spec fn ram_after_write_spec(self, addr: int, data: u8) -> Seq<u8> {
        if 0xA000 <= addr < 0xC000 {
            match self.mbc.ram_offset_spec(addr) {
                Some(o) => if self.ram.len() > 0 {
                    self.ram@.update(o % self.ram@.len() as int, data)
                } else {
                    self.ram@
                },
                None => self.ram@,
            }
        } else {
            self.ram@
        }
    }

    /// The controller state after a write: bank control below `$8000`,
    /// unchanged otherwise.
    pub open spec fn mbc_after_write_spec(self, addr: int, data: u8) -> MemoryBankController {
        if addr < 0x8000 {
            self.mbc.write_spec(addr, data as int)
        } else {
            self.mbc
        }
    }

    /// Read ROM address space (`$0000-$7FFF`).
    pub fn read_rom(&self, addr: u16) -> (r: Result<u8, AddressingError>)
        requires
            addr < 0x8000,
        ensures
            match self.rom_read_spec(addr as int) {
                Some(v) => r == Result::<u8, AddressingError>::Ok(v),
                None => r == Result::<u8, AddressingError>::Err(AddressingError::Unmapped),
            },
    {
        match self.mbc.rom_offset(addr) {
            Some(o) => {
                if self.rom.len() > 0 {
                    let idx = (o as usize) % self.rom.len();
                    Ok(self.rom[idx])
                } else {
                    Err(AddressingError::Unmapped)
                }
            }
            None => Err(AddressingError::Unmapped),
        }
    }

    /// Read external-RAM address space (`$A000-$BFFF`).
    pub fn read_ram(&self, addr: u16) -> (r: Result<u8, AddressingError>)
        requires
            0xA000 <= addr < 0xC000,
        ensures
            match self.ram_read_spec(addr as int) {
                Some(v) => r == Result::<u8, AddressingError>::Ok(v),
                None => r == Result::<u8, AddressingError>::Err(AddressingError::Unmapped),
            },
    {
        match self.mbc.ram_offset(addr) {
            Some(o) => {
                if self.ram.len() > 0 {
                    let idx = (o as usize) % self.ram.len();
                    Ok(self.ram[idx])
                } else {
                    Err(AddressingError::Unmapped)
                }
            }
            None => Err(AddressingError::Unmapped),
        }
    }

    /// Store into external RAM when the controller lets the write through.
    pub fn write_ram(&mut self, addr: u16, data: u8)
        requires
            0xA000 <= addr < 0xC000,
        ensures
            final(self).ram@ == old(self).ram_after_write_spec(addr as int, data),
            final(self).rom@ == old(self).rom@,
            final(self).mbc == old(self).mbc,
            final(self).battery == old(self).battery,
            final(self).title@ == old(self).title@,
            final(self).cgb_flag == old(self).cgb_flag,
    {
        match self.mbc.ram_offset(addr) {
            Some(o) => {
                if self.ram.len() > 0 {
                    let idx = (o as usize) % self.ram.len();
                    self.ram.set(idx, data);
                    proof {
                        assert(final(self).ram@ =~= old(self).ram_after_write_spec(
                            addr as int,
                            data,
                        ));
                    }
                }
            }
            None => {}
        }
    }

    /// Apply any cartridge-directed write: bank control below `$8000`,
    /// RAM stores in `$A000-$BFFF`.
    pub fn write(&mut self, addr: u16, data: u8)
        requires
            addr < 0x8000 || (0xA000 <= addr < 0xC000),
        ensures
            final(self).ram@ == old(self).ram_after_write_spec(addr as int, data),
            final(self).mbc == old(self).mbc_after_write_spec(addr as int, data),
            final(self).rom@ == old(self).rom@,
            final(self).battery == old(self).battery,
            final(self).title@ == old(self).title@,
            final(self).cgb_flag == old(self).cgb_flag,
    {
        if addr < 0x8000 {
            self.mbc.write(addr, data);
        } else {
            self.write_ram(addr, data);
        }
    }
}

} // verus!
