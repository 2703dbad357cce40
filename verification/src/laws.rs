//! The bus-level laws: what unmapped addresses read, and which
//! memory-mapped registers behave as plain bytes under write-then-read.

use vstd::prelude::*;

use crate::bus::Bus;
use crate::regs::{flags_byte, flags_of_byte, word};

verus! {

/// An address no owner answers: the unusable range above OAM and the
/// I/O locations without a register (the audio block among them), plus
/// the write-only boot lock.
pub open spec fn unmapped_addr(addr: int) -> bool {
    ||| 0xFEA0 <= addr < 0xFF00
    ||| 0xFF01 <= addr <= 0xFF03
    ||| 0xFF08 <= addr <= 0xFF0E
    ||| 0xFF10 <= addr <= 0xFF3F
    ||| addr == 0xFF4E
    ||| addr == 0xFF50
    ||| 0xFF51 <= addr <= 0xFF67
    ||| 0xFF6C <= addr <= 0xFF6F
    ||| 0xFF71 <= addr < 0xFF80
}

/// A bus read of an unmapped address is always `$FF`, in every machine
/// state.
pub proof fn lemma_unmapped_reads_ff(b: Bus, addr: int)
    requires
        unmapped_addr(addr),
    ensures
        b.read_spec(addr) == 0xFF,
{
    reveal(Bus::read_spec);
}

/// The memory-mapped registers that store a written byte verbatim:
/// `TIMA`, `TMA`, `LCDC`, `SCY`, `SCX`, `LYC`, the DMA source, `BGP`,
/// `OBP0`, `OBP1`, `WY` and `WX`.
pub open spec fn plain_byte_reg(addr: int) -> bool {
    ||| addr == 0xFF05
    ||| addr == 0xFF06
    ||| addr == 0xFF40
    ||| addr == 0xFF42
    ||| addr == 0xFF43
    ||| addr == 0xFF45
    ||| addr == 0xFF46
    ||| addr == 0xFF47
    ||| addr == 0xFF48
    ||| addr == 0xFF49
    ||| addr == 0xFF4A
    ||| addr == 0xFF4B
}

/// Writing a plain-byte register and reading it back yields the written
/// value, whatever the machine state.
pub proof fn lemma_plain_reg_round_trip(pre: Bus, post: Bus, addr: int, v: u8)
    requires
        pre.wf(),
        plain_byte_reg(addr),
        Bus::write_rel(pre, post, addr, v),
    ensures
        post.read_spec(addr) == v as int,
{
    reveal(Bus::read_spec);
}

/// The same round trip through plain RAM: HRAM and (echo included) work
/// RAM store and return the written byte.
pub proof fn lemma_ram_round_trip(pre: Bus, post: Bus, addr: int, v: u8)
    requires
        pre.wf(),
        (0xC000 <= addr < 0xFE00) || (0xFF80 <= addr < 0xFFFF),
        Bus::write_rel(pre, post, addr, v),
    ensures
        post.read_spec(addr) == v as int,
{
    reveal(Bus::read_spec);
    if 0xC000 <= addr < 0xFE00 {
        let rel = if addr < 0xE000 {
            addr - 0xC000
        } else {
            addr - 0xE000
        };
        pre.wram.lemma_index_distinct(rel, rel);
        assert(post.wram.index_spec(rel) == pre.wram.index_spec(rel));
    }
}

/// A 16-bit value pushed and popped through any pair but `AF` comes back
/// whole; through `AF` the low nibble of the flag byte is masked away,
/// so the upper twelve bits survive: the reassembled word agrees with
/// the original under the `$FFF0` mask.
pub proof fn lemma_push_pop_round_trip(x: u16)
    ensures
        word(x as int / 256, x as int % 256) == x as int,
        word(x as int / 256, flags_byte(flags_of_byte(x as int % 256))) == (x & 0xFFF0) as int,
{
    crate::regs::lemma_af_write_read_masks_low_nibble(crate::regs::Registers::new_spec(), x);
}

} // verus!
