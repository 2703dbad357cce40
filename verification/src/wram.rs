//! Work RAM: bank 0 fixed at `$C000-$CFFF`, banks 1-7 selectable at
//! `$D000-$DFFF` on the color variants through the `SVBK` register.

use vstd::prelude::*;

use crate::variant::GameBoyVariant;

verus! {

/// The work RAM and its bank register.  The monochrome variants hold two
/// 4 KiB halves; the color variants hold eight.
#[derive(Debug)]
pub struct WRam {
    pub memory: Vec<u8>,
    pub bank: u8,
}

impl WRam {
    /// The invariant of a well-formed work RAM.
    pub open spec fn wf(self) -> bool {
        (self.memory@.len() == 0x2000 || self.memory@.len() == 0x8000) && self.bank < 8
    }

    /// The bank the switchable half uses: a written 0 selects bank 1.
    pub open spec fn actual_bank_spec(self) -> int {
        if self.bank == 0 {
            1
        } else {
            self.bank as int
        }
    }

    /// The memory index a relative address (`0..$2000`) resolves to:
    /// the fixed bank below `$1000`, the selected bank above, wrapped
    /// into the monochrome size when the variant has only two banks.
    pub open spec fn index_spec(self, addr: int) -> int {
        if addr < 0x1000 {
            addr
        } else {
            (addr - 0x1000 + self.actual_bank_spec() * 0x1000) % self.memory@.len() as int
        }
    }

    /// Zeroed work RAM sized for the variant.
    pub fn new(variant: &GameBoyVariant) -> (r: WRam)
        ensures
            r.wf(),
            r.bank == 0,
            r.memory@ =~= Seq::new(
                if variant.is_color_variant_spec() {
                    0x8000nat
                } else {
                    0x2000nat
                },
                |i: int| 0u8,
            ),
    {
        let size: usize = if variant.is_color_variant() {
            0x8000
        } else {
            0x2000
        };
        let mut memory: Vec<u8> = Vec::new();
        let mut i: usize = 0;
        while i < size
            invariant
                i <= size,
                memory@ =~= Seq::new(i as nat, |j: int| 0u8),
            decreases size - i,
        {
            memory.push(0);
            i = i + 1;
        }
        WRam { memory, bank: 0 }
    }

    /// The switchable bank in use.
    pub fn actual_bank(&self) -> (r: u16)
        requires
            self.wf(),
        ensures
            r as int == self.actual_bank_spec(),
    {
        if self.bank == 0 {
            1
        } else {
            self.bank as u16
        }
    }

    /// Read a relative work-RAM address.
    pub fn read(&self, addr: u16) -> (r: u8)
        requires
            self.wf(),
            addr < 0x2000,
        ensures
            r == self.memory@[self.index_spec(addr as int)],
    {
        if addr < 0x1000 {
            self.memory[addr as usize]
        } else {
            let idx = (addr as usize - 0x1000 + (self.actual_bank() as usize) * 0x1000)
                % self.memory.len();
            self.memory[idx]
        }
    }

    /// Store at a relative work-RAM address.
    pub fn write(&mut self, addr: u16, data: u8)
        requires
            old(self).wf(),
            addr < 0x2000,
        ensures
            final(self).wf(),
            final(self).bank == old(self).bank,
            final(self).memory@ == old(self).memory@.update(
                old(self).index_spec(addr as int),
                data,
            ),
    {
        if addr < 0x1000 {
            self.memory.set(addr as usize, data);
        } else {
            let idx = (addr as usize - 0x1000 + (self.actual_bank() as usize) * 0x1000)
                % self.memory.len();
            self.memory.set(idx, data);
        }
    }

    /// The bank mapping sends distinct relative addresses to distinct,
    /// in-range memory indices (given that the monochrome configuration
    /// keeps its bank register at zero).
    pub proof fn lemma_index_distinct(self, a1: int, a2: int)
        requires
            self.wf(),
            self.memory@.len() == 0x2000 ==> self.bank == 0,
            0 <= a1 < 0x2000,
            0 <= a2 < 0x2000,
        ensures
            a1 != a2 ==> self.index_spec(a1) != self.index_spec(a2),
            0 <= self.index_spec(a1) < self.memory@.len(),
    {
        let len = self.memory@.len() as int;
        let b = self.actual_bank_spec();
        assert(1 <= b <= 7);
        if len == 0x2000 {
            assert(b == 1);
            if a1 >= 0x1000 {
                assert(a1 - 0x1000 + 0x1000 == a1);
                vstd::arithmetic::div_mod::lemma_small_mod(a1 as nat, 0x2000);
            }
            if a2 >= 0x1000 {
                vstd::arithmetic::div_mod::lemma_small_mod(a2 as nat, 0x2000);
            }
        } else {
            assert(len == 0x8000);
            if a1 >= 0x1000 {
                assert(0x1000 <= a1 - 0x1000 + b * 0x1000 < 0x8000);
                vstd::arithmetic::div_mod::lemma_small_mod(
                    (a1 - 0x1000 + b * 0x1000) as nat,
                    0x8000,
                );
            }
            if a2 >= 0x1000 {
                assert(0x1000 <= a2 - 0x1000 + b * 0x1000 < 0x8000);
                vstd::arithmetic::div_mod::lemma_small_mod(
                    (a2 - 0x1000 + b * 0x1000) as nat,
                    0x8000,
                );
            }
        }
    }

    /// The `SVBK` register value: the bank bits under set upper bits.
    pub fn read_bank_reg(&self) -> (r: u8)
        requires
            self.wf(),
        ensures
            r as int == 0xF8 + self.bank as int,
    {
        0xF8 + self.bank
    }

    /// A write to `SVBK` keeps the low three bits.
    pub fn write_bank_reg(&mut self, data: u8)
        requires
            old(self).wf(),
        ensures
            final(self).wf(),
            final(self).bank as int == data as int % 8,
            final(self).memory@ == old(self).memory@,
    {
        self.bank = data % 8;
    }
}

} // verus!
