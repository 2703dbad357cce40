//! SM83 register file: eight 8-bit registers paired as `AF`, `BC`, `DE`,
//! `HL`, plus the 16-bit `SP` and `PC`.  The flag register `F` only ever
//! holds the four flag bits `Z`, `N`, `H`, `C` in its upper nibble; its low
//! four bits read as zero.

use vstd::prelude::*;

verus! {

/// The four SM83 condition flags, stored individually so that the low
/// nibble of `F` cannot hold stray bits.
#[derive(Debug, Clone, Copy, PartialEq, Eq, Structural)]
pub struct Flags {
    pub z: bool,
    pub n: bool,
    pub h: bool,
    pub c: bool,
}

/// The value of the `F` register encoded from individual flags:
/// bit 7 = Z, bit 6 = N, bit 5 = H, bit 4 = C, bits 0-3 = 0.
pub open spec fn flags_byte(fl: Flags) -> int {
    (if fl.z { 0x80int } else { 0 })
        + (if fl.n { 0x40int } else { 0 })
        + (if fl.h { 0x20int } else { 0 })
        + (if fl.c { 0x10int } else { 0 })
}

/// The flags encoded in bits 4-7 of a byte value.
pub open spec fn flags_of_byte(v: int) -> Flags {
    Flags {
        z: v % 256 >= 128,
        n: v % 128 >= 64,
        h: v % 64 >= 32,
        c: v % 32 >= 16,
    }
}

impl Flags {
    /// All flags cleared.
    pub fn cleared() -> (r: Flags)
        ensures
            r == (Flags { z: false, n: false, h: false, c: false }),
    {
        Flags { z: false, n: false, h: false, c: false }
    }

    /// Encode the flags as the byte value of `F`.
    pub fn to_byte(self) -> (r: u8)
        ensures
            r as int == flags_byte(self),
    {
        let mut r: u8 = 0;
        if self.z {
            r = r + 0x80;
        }
        if self.n {
            r = r + 0x40;
        }
        if self.h {
            r = r + 0x20;
        }
        if self.c {
            r = r + 0x10;
        }
        r
    }

    /// Decode the flag bits from a byte value; bits 0-3 are discarded.
    pub fn from_byte(v: u8) -> (r: Flags)
        ensures
            r == flags_of_byte(v as int),
    {
        Flags {
            z: v >= 128,
            n: v % 128 >= 64,
            h: v % 64 >= 32,
            c: v % 32 >= 16,
        }
    }
}

/// The low four bits of `F` are always zero: whatever the flags are, the
/// encoded byte is a multiple of 16 and its low nibble masks to zero.
pub proof fn lemma_f_low_bits_zero(fl: Flags)
    ensures
        flags_byte(fl) % 16 == 0,
        (flags_byte(fl) as u8) & 0x0F == 0,
{
    let b = flags_byte(fl) as u8;
    assert(flags_byte(fl) % 16 == 0);
    assert(b % 16 == 0 ==> b & 0x0F == 0) by (bit_vector);
}

/// Round trip of the flag encoding: decoding an encoded flag byte gives
/// the flags back, and re-encoding a decoded byte keeps bits 4-7.
pub proof fn lemma_flags_byte_round_trip(fl: Flags)
    ensures
        flags_of_byte(flags_byte(fl)) == fl,
{
}

/// One of the eight-bit registers (the `[HL]` pseudo-register is handled
/// separately by the opcode model).
#[derive(Debug, Clone, Copy, PartialEq, Eq, Structural)]
pub enum Reg8 {
    A,
    B,
    C,
    D,
    E,
    H,
    L,
}

/// One of the sixteen-bit register pairs.
#[derive(Debug, Clone, Copy, PartialEq, Eq, Structural)]
pub enum Reg16 {
    AF,
    BC,
    DE,
    HL,
    SP,
}

/// The SM83 register file.
#[derive(Debug, Clone, Copy, PartialEq, Eq, Structural)]
pub struct Registers {
    pub a: u8,
    pub f: Flags,
    pub b: u8,
    pub c: u8,
    pub d: u8,
    pub e: u8,
    pub h: u8,
    pub l: u8,
    pub sp: u16,
    pub pc: u16,
}

/// A sixteen-bit value assembled from a high and a low byte.
pub open spec fn word(hi: int, lo: int) -> int {
    hi * 256 + lo
}

impl Registers {
    /// The value of an eight-bit register.
    pub open spec fn get8_spec(self, reg: Reg8) -> u8 {
        match reg {
            Reg8::A => self.a,
            Reg8::B => self.b,
            Reg8::C => self.c,
            Reg8::D => self.d,
            Reg8::E => self.e,
            Reg8::H => self.h,
            Reg8::L => self.l,
        }
    }

    /// The value of a register pair; `AF` has the encoded flag byte in its
    /// low half.
    pub open spec fn get16_spec(self, reg: Reg16) -> int {
        match reg {
            Reg16::AF => word(self.a as int, flags_byte(self.f)),
            Reg16::BC => word(self.b as int, self.c as int),
            Reg16::DE => word(self.d as int, self.e as int),
            Reg16::HL => word(self.h as int, self.l as int),
            Reg16::SP => self.sp as int,
        }
    }

    /// A register file with every register zero and all flags clear.
    pub fn new() -> (r: Registers)
        ensures
            r == Registers::new_spec(),
    {
        Registers {
            a: 0,
            f: Flags { z: false, n: false, h: false, c: false },
            b: 0,
            c: 0,
            d: 0,
            e: 0,
            h: 0,
            l: 0,
            sp: 0,
            pc: 0,
        }
    }

    pub open spec fn new_spec() -> Registers {
        Registers {
            a: 0,
            f: Flags { z: false, n: false, h: false, c: false },
            b: 0,
            c: 0,
            d: 0,
            e: 0,
            h: 0,
            l: 0,
            sp: 0,
            pc: 0,
        }
    }

    pub fn get8(&self, reg: Reg8) -> (r: u8)
        ensures
            r == self.get8_spec(reg),
    {
        match reg {
            Reg8::A => self.a,
            Reg8::B => self.b,
            Reg8::C => self.c,
            Reg8::D => self.d,
            Reg8::E => self.e,
            Reg8::H => self.h,
            Reg8::L => self.l,
        }
    }

    pub fn set8(&mut self, reg: Reg8, val: u8)
        ensures
            final(self).get8_spec(reg) == val,
            final(self).f == old(self).f,
            final(self).sp == old(self).sp,
            final(self).pc == old(self).pc,
            forall|other: Reg8|
                other != reg ==> final(self).get8_spec(other) == old(self).get8_spec(other),
    {
        match reg {
            Reg8::A => self.a = val,
            Reg8::B => self.b = val,
            Reg8::C => self.c = val,
            Reg8::D => self.d = val,
            Reg8::E => self.e = val,
            Reg8::H => self.h = val,
            Reg8::L => self.l = val,
        }
    }

    pub fn get16(&self, reg: Reg16) -> (r: u16)
        ensures
            r as int == self.get16_spec(reg),
    {
        match reg {
            Reg16::AF => (self.a as u16) * 256 + (self.f.to_byte() as u16),
            Reg16::BC => (self.b as u16) * 256 + (self.c as u16),
            Reg16::DE => (self.d as u16) * 256 + (self.e as u16),
            Reg16::HL => (self.h as u16) * 256 + (self.l as u16),
            Reg16::SP => self.sp,
        }
    }

    /// Write a register pair.  A write to `AF` keeps only the flag bits of
    /// the low byte: the low nibble of `F` is masked away.
    pub fn set16(&mut self, reg: Reg16, val: u16)
        ensures
            reg != Reg16::AF ==> final(self).get16_spec(reg) == val as int,
            reg == Reg16::AF ==> final(self).a as int == val as int / 256
                && final(self).f == flags_of_byte(val as int % 256),
            reg != Reg16::AF ==> final(self).a == old(self).a && final(self).f == old(self).f,
            final(self).pc == old(self).pc,
            reg != Reg16::SP ==> final(self).sp == old(self).sp,
            (reg == Reg16::AF || reg == Reg16::SP) ==> final(self).b == old(self).b
                && final(self).c == old(self).c && final(self).d == old(self).d
                && final(self).e == old(self).e && final(self).h == old(self).h
                && final(self).l == old(self).l,
            reg == Reg16::BC ==> final(self).d == old(self).d && final(self).e == old(self).e
                && final(self).h == old(self).h && final(self).l == old(self).l
                && final(self).sp == old(self).sp,
            reg == Reg16::DE ==> final(self).b == old(self).b && final(self).c == old(self).c
                && final(self).h == old(self).h && final(self).l == old(self).l
                && final(self).sp == old(self).sp,
            reg == Reg16::HL ==> final(self).b == old(self).b && final(self).c == old(self).c
                && final(self).d == old(self).d && final(self).e == old(self).e
                && final(self).sp == old(self).sp,
    {
        let hi = (val / 256) as u8;
        let lo = (val % 256) as u8;
        match reg {
            Reg16::AF => {
                self.a = hi;
                self.f = Flags::from_byte(lo);
            }
            Reg16::BC => {
                self.b = hi;
                self.c = lo;
            }
            Reg16::DE => {
                self.d = hi;
                self.e = lo;
            }
            Reg16::HL => {
                self.h = hi;
                self.l = lo;
            }
            Reg16::SP => self.sp = val,
        }
    }

    /// Advance the program counter by one, wrapping at the address-space end.
    pub fn inc_pc(&mut self)
        ensures
            final(self).pc == old(self).pc.wrapping_add(1),
            *final(self) == (Registers { pc: final(self).pc, ..*old(self) }),
    {
        self.pc = self.pc.wrapping_add(1);
    }

    /// Step the program counter back by one, wrapping at zero.
    pub fn dec_pc(&mut self)
        ensures
            final(self).pc == old(self).pc.wrapping_sub(1),
            *final(self) == (Registers { pc: final(self).pc, ..*old(self) }),
    {
        self.pc = self.pc.wrapping_sub(1);
    }

    pub fn get_z_flag(&self) -> (r: bool)
        ensures
            r == self.f.z,
    {
        self.f.z
    }

    pub fn set_z_flag(&mut self, val: bool)
        ensures
            *final(self) == (Registers { f: Flags { z: val, ..old(self).f }, ..*old(self) }),
    {
        self.f.z = val;
    }

    pub fn get_n_flag(&self) -> (r: bool)
        ensures
            r == self.f.n,
    {
        self.f.n
    }

    pub fn set_n_flag(&mut self, val: bool)
        ensures
            *final(self) == (Registers { f: Flags { n: val, ..old(self).f }, ..*old(self) }),
    {
        self.f.n = val;
    }

    pub fn get_h_flag(&self) -> (r: bool)
        ensures
            r == self.f.h,
    {
        self.f.h
    }

    pub fn set_h_flag(&mut self, val: bool)
        ensures
            *final(self) == (Registers { f: Flags { h: val, ..old(self).f }, ..*old(self) }),
    {
        self.f.h = val;
    }

    pub fn get_c_flag(&self) -> (r: bool)
        ensures
            r == self.f.c,
    {
        self.f.c
    }

    pub fn set_c_flag(&mut self, val: bool)
        ensures
            *final(self) == (Registers { f: Flags { c: val, ..old(self).f }, ..*old(self) }),
    {
        self.f.c = val;
    }
}

/// A `push` of a register pair followed by a `pop` into the same pair
/// restores the 16-bit value, except through `AF`, where the low nibble of
/// the popped value is masked to zero: writing and re-reading `AF` agrees
/// with the original value on the upper twelve bits.
pub proof fn lemma_af_write_read_masks_low_nibble(regs: Registers, val: u16)
    ensures
        written_af_value(regs, val) == (val & 0xFFF0) as int,
{
    let lo = val as int % 256;
    let fl = flags_of_byte(lo);
    lemma_flag_decode_encode(val);
    assert(val as int / 256 * 256 + (val as int % 256 / 16) * 16 == (val & 0xFFF0)) by (bit_vector);
}

/// The value read back from `AF` after writing `val` to it.
pub open spec fn written_af_value(regs: Registers, val: u16) -> int {
    word(val as int / 256, flags_byte(flags_of_byte(val as int % 256)))
}

proof fn lemma_flag_decode_encode(val: u16)
    ensures
        flags_byte(flags_of_byte(val as int % 256)) == (val as int % 256 / 16) * 16,
{
    let lo = val as int % 256;
    assert(0 <= lo < 256);
    let fl = flags_of_byte(lo);
    let r1 = lo - (if fl.z { 0x80int } else { 0 });
    assert(r1 == lo % 128);
    let r2 = r1 - (if fl.n { 0x40int } else { 0 });
    assert(lo % 128 % 64 == lo % 64) by {
        vstd::arithmetic::div_mod::lemma_mod_mod(lo, 64, 2);
    }
    assert(r2 == lo % 64);
    let r3 = r2 - (if fl.h { 0x20int } else { 0 });
    assert(lo % 64 % 32 == lo % 32) by {
        vstd::arithmetic::div_mod::lemma_mod_mod(lo, 32, 2);
    }
    assert(r3 == lo % 32);
    let r4 = r3 - (if fl.c { 0x10int } else { 0 });
    assert(lo % 32 % 16 == lo % 16) by {
        vstd::arithmetic::div_mod::lemma_mod_mod(lo, 16, 2);
    }
    assert(r4 == lo % 16);
    assert(flags_byte(fl) == lo - r4);
    assert(lo - lo % 16 == (lo / 16) * 16);
}

} // verus!
