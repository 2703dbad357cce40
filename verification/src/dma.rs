//! OAM DMA state: a write to `$FF46` starts a 160-byte copy from
//! `source * $100` into OAM, one byte per M-cycle.

use vstd::prelude::*;

verus! {

/// The DMA engine: the source page, the byte index of the transfer and
/// whether a transfer is running.
#[derive(Debug, Clone, Copy, PartialEq, Eq, Structural)]
pub struct Dma {
    pub active: bool,
    pub src: u8,
    pub idx: u8,
}

impl Dma {
    /// The invariant: a running transfer has copied fewer than 160 bytes.
    pub open spec fn wf(self) -> bool {
        self.active ==> self.idx < 160
    }

    /// Idle engine.
    pub fn new() -> (r: Dma)
        ensures
            r == (Dma { active: false, src: 0, idx: 0 }),
            r.wf(),
    {
        Dma { active: false, src: 0, idx: 0 }
    }

    /// A write to `$FF46` restarts the transfer from page `data`.
    pub fn set(&mut self, data: u8)
        ensures
            *final(self) == (Dma { active: true, src: data, idx: 0 }),
            final(self).wf(),
    {
        self.active = true;
        self.src = data;
        self.idx = 0;
    }

    /// The last value written to `$FF46`.
    pub fn source(&self) -> (r: u8)
        ensures
            r == self.src,
    {
        self.src
    }

    /// The bus address the next byte is fetched from.
    pub fn read_addr(&self) -> (r: u16)
        ensures
            r as int == self.src as int * 0x100 + self.idx as int,
    {
        (self.src as u16) * 0x100 + (self.idx as u16)
    }

    /// The OAM address the next byte lands at.
    pub fn write_addr(&self) -> (r: u16)
        ensures
            r as int == 0xFE00 + self.idx as int,
    {
        0xFE00 + (self.idx as u16)
    }

    /// Whether a transfer is running.
    pub fn active(&self) -> (r: bool)
        ensures
            r == self.active,
    {
        self.active
    }

    /// Advance one M-cycle: while running, hand out the source address
    /// and OAM index of the byte to copy this cycle and step the index;
    /// the transfer ends after byte 159.
    pub fn clock(&mut self) -> (r: Option<(u16, u8)>)
        requires
            old(self).wf(),
        ensures
            final(self).wf(),
            !old(self).active ==> r is None && *final(self) == *old(self),
            old(self).active ==> r == Some(
                (
                    (old(self).src as int * 0x100 + old(self).idx as int) as u16,
                    old(self).idx,
                ),
            ) && final(self).src == old(self).src && final(self).idx as int == old(
                self,
            ).idx as int + 1 && final(self).active == (old(self).idx < 159),
    {
        if !self.active {
            return None;
        }
        let r = Some((self.read_addr(), self.idx));
        self.idx = self.idx + 1;
        if self.idx == 160 {
            self.active = false;
        }
        r
    }
}

} // verus!
