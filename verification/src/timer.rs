//! Timer / divider block: a free-running 16-bit system counter clocked
//! once per M-cycle.  `DIV` exposes bits 6-13 of the counter; `TIMA`
//! increments on the falling edge of a counter bit selected by `TAC`, and
//! reloads from `TMA` one cycle after it overflows, raising the timer
//! interrupt.

use vstd::prelude::*;

verus! {

/// The timer state.  `overflowed` marks the one-cycle delay between a
/// `TIMA` overflow and the reload from `TMA`.
#[derive(Debug, Clone, Copy, PartialEq, Eq, Structural)]
pub struct Timer {
    pub sys_clock: u16,
    pub tima: u8,
    pub tma: u8,
    pub tac: u8,
    pub overflowed: bool,
}

/// Whether `TAC` enables the timer (bit 2).
pub open spec fn tac_enabled(tac: int) -> bool {
    tac % 8 >= 4
}

/// The index of the system-counter bit selected by `TAC[1:0]`.
pub open spec fn tac_bit(tac: int) -> int {
    if tac % 4 == 0 {
        7
    } else if tac % 4 == 1 {
        1
    } else if tac % 4 == 2 {
        3
    } else {
        5
    }
}

/// The number of M-cycles between `TIMA` increments for a `TAC` value:
/// twice the weight of the selected bit.
pub open spec fn tac_period(tac: int) -> int {
    if tac % 4 == 0 {
        256
    } else if tac % 4 == 1 {
        4
    } else if tac % 4 == 2 {
        16
    } else {
        64
    }
}

/// The weight of the selected bit (half the period).
pub open spec fn tac_bit_weight(tac: int) -> int {
    tac_period(tac) / 2
}

/// The selected counter bit of a clock value.
pub open spec fn selected_bit(clock: int, tac: int) -> bool {
    clock / tac_bit_weight(tac) % 2 == 1
}

/// Whether stepping the counter from `clock` to `clock + 1` (wrapping)
/// makes the selected bit fall from 1 to 0.
pub open spec fn falling_edge(clock: u16, tac: int) -> bool {
    selected_bit(clock as int, tac) && !selected_bit(clock.wrapping_add(1) as int, tac)
}

impl Timer {
    /// Whether `TAC` currently enables `TIMA`.
    pub open spec fn enabled(self) -> bool {
        tac_enabled(self.tac as int)
    }

    /// The timer after one M-cycle.
    pub open spec fn step_spec(self) -> Timer {
        let reloaded = if self.overflowed {
            Timer { tima: self.tma, overflowed: false, ..self }
        } else {
            self
        };
        let stepped = Timer { sys_clock: self.sys_clock.wrapping_add(1), ..reloaded };
        if self.enabled() && falling_edge(self.sys_clock, self.tac as int) {
            stepped.tick_spec()
        } else {
            stepped
        }
    }

    /// Whether one M-cycle raises the timer interrupt: exactly the cycle
    /// that reloads `TIMA` from `TMA` after an overflow.
    pub open spec fn step_irq_spec(self) -> bool {
        self.overflowed
    }

    /// The timer after one `TIMA` increment; on overflow, `TIMA` reads as
    /// zero for one cycle before the reload.
    pub open spec fn tick_spec(self) -> Timer {
        if self.tima == 0xFF {
            Timer { tima: 0, overflowed: true, ..self }
        } else {
            Timer { tima: (self.tima + 1) as u8, overflowed: false, ..self }
        }
    }

    pub fn new() -> (r: Timer)
        ensures
            r == (Timer { sys_clock: 0, tima: 0, tma: 0, tac: 0, overflowed: false }),
    {
        Timer { sys_clock: 0, tima: 0, tma: 0, tac: 0, overflowed: false }
    }

    /// One `TIMA` increment.
    fn tick(&mut self)
        ensures
            *final(self) == old(self).tick_spec(),
    {
        if self.tima == 0xFF {
            self.tima = 0;
            self.overflowed = true;
        } else {
            self.tima = self.tima + 1;
            self.overflowed = false;
        }
    }

    /// Whether the selected counter bit is currently 1.
    fn selected_bit_now(&self) -> (r: bool)
        ensures
            r == selected_bit(self.sys_clock as int, self.tac as int),
    {
        let weight: u16 = if self.tac % 4 == 0 {
            128
        } else if self.tac % 4 == 1 {
            2
        } else if self.tac % 4 == 2 {
            8
        } else {
            32
        };
        self.sys_clock / weight % 2 == 1
    }

    /// Advance the timer one M-cycle; the result says whether the timer
    /// interrupt is raised (the delayed reload cycle after an overflow).
    pub fn clock(&mut self) -> (irq: bool)
        ensures
            *final(self) == old(self).step_spec(),
            irq == old(self).step_irq_spec(),
    {
        let irq = self.overflowed;
        if self.overflowed {
            self.overflowed = false;
            self.tima = self.tma;
        }
        let was_set = self.selected_bit_now();
        let enabled = self.tac % 8 >= 4;
        self.sys_clock = self.sys_clock.wrapping_add(1);
        let now_set = self.selected_bit_now();
        if enabled && was_set && !now_set {
            self.tick();
        }
        irq
    }

    /// The `DIV` register: bits 6-13 of the system counter.
    pub fn read_div(&self) -> (r: u8)
        ensures
            r as int == self.sys_clock as int / 64 % 256,
    {
        ((self.sys_clock / 64) % 256) as u8
    }

    pub fn read_tima(&self) -> (r: u8)
        ensures
            r == self.tima,
    {
        self.tima
    }

    pub fn read_tma(&self) -> (r: u8)
        ensures
            r == self.tma,
    {
        self.tma
    }

    /// The `TAC` register; the unused upper five bits read as 1.
    pub fn read_tac(&self) -> (r: u8)
        ensures
            r as int == 0xF8 + self.tac as int % 8,
    {
        0xF8 + self.tac % 8
    }

    /// A write to `DIV` zeroes the whole 16-bit counter.  If the selected
    /// bit was 1, the reset is a falling edge and causes a spurious
    /// `TIMA` tick when the timer is enabled.
    pub fn write_div(&mut self)
        ensures
            *final(self) == old(self).write_div_spec(),
    {
        let was_set = self.selected_bit_now();
        self.sys_clock = 0;
        if self.tac % 8 >= 4 && was_set {
            self.tick();
        }
    }

    pub open spec fn write_div_spec(self) -> Timer {
        let reset = Timer { sys_clock: 0, ..self };
        if self.enabled() && selected_bit(self.sys_clock as int, self.tac as int) {
            reset.tick_spec()
        } else {
            reset
        }
    }

    pub fn write_tima(&mut self, v: u8)
        ensures
            *final(self) == (Timer { tima: v, ..*old(self) }),
    {
        self.tima = v;
    }

    pub fn write_tma(&mut self, v: u8)
        ensures
            *final(self) == (Timer { tma: v, ..*old(self) }),
    {
        self.tma = v;
    }

    /// A write to `TAC`.  Changing the selected bit causes a spurious tick
    /// if the timer ends up enabled; on the monochrome variant, disabling
    /// the timer while the selected bit is 1 also ticks.
    pub fn write_tac(&mut self, v: u8, is_cgb: bool)
        ensures
            *final(self) == old(self).write_tac_spec(v, is_cgb),
    {
        let old_set = self.selected_bit_now();
        let old_enabled = self.tac % 8 >= 4;
        self.tac = v % 8;
        let new_set = self.selected_bit_now();
        let new_enabled = self.tac % 8 >= 4;
        if old_set != new_set {
            if new_enabled {
                self.tick();
            }
        } else if !is_cgb && (old_set && old_enabled) && !(new_set && new_enabled) {
            self.tick();
        }
    }

    pub open spec fn write_tac_spec(self, v: u8, is_cgb: bool) -> Timer {
        let old_set = selected_bit(self.sys_clock as int, self.tac as int);
        let old_enabled = self.enabled();
        let written = Timer { tac: (v as int % 8) as u8, ..self };
        let new_set = selected_bit(written.sys_clock as int, written.tac as int);
        let new_enabled = written.enabled();
        if old_set != new_set {
            if new_enabled {
                written.tick_spec()
            } else {
                written
            }
        } else if !is_cgb && (old_set && old_enabled) && !(new_set && new_enabled) {
            written.tick_spec()
        } else {
            written
        }
    }
}

/// With the timer enabled, the selected bit falls exactly at the clock
/// values congruent to `period - 1` modulo the period: `TIMA` increments
/// are aligned to the period grid of `{256, 4, 16, 64}` M-cycles.
pub proof fn lemma_falling_edge_aligned(clock: u16, tac: u8)
    ensures
        falling_edge(clock, tac as int) <==> clock as int % tac_period(tac as int) == tac_period(
            tac as int,
        ) - 1,
{
    let t = tac as int;
    let n = clock.wrapping_add(1);
    if t % 4 == 0 {
        assert((clock as int / 128 % 2 == 1 && !(n as int / 128 % 2 == 1)) <==> clock as int % 256
            == 255) by (bit_vector)
            requires
                n == clock.wrapping_add(1),
        ;
    } else if t % 4 == 1 {
        assert((clock as int / 2 % 2 == 1 && !(n as int / 2 % 2 == 1)) <==> clock as int % 4 == 3)
            by (bit_vector)
            requires
                n == clock.wrapping_add(1),
        ;
    } else if t % 4 == 2 {
        assert((clock as int / 8 % 2 == 1 && !(n as int / 8 % 2 == 1)) <==> clock as int % 16 == 15)
            by (bit_vector)
            requires
                n == clock.wrapping_add(1),
        ;
    } else {
        assert((clock as int / 32 % 2 == 1 && !(n as int / 32 % 2 == 1)) <==> clock as int % 64
            == 63) by (bit_vector)
            requires
                n == clock.wrapping_add(1),
        ;
    }
}

/// Consecutive `TIMA` increments of an enabled timer are separated by
/// exactly the period that `TAC` selects: if the selected bit falls at two
/// clock values and at none in between, the two values are one period
/// apart.
pub proof fn lemma_tima_increment_separation(c1: u16, c2: u16, tac: u8)
    requires
        c1 < c2,
        falling_edge(c1, tac as int),
        falling_edge(c2, tac as int),
        forall|c: u16| c1 < c < c2 ==> !falling_edge(c, tac as int),
    ensures
        c2 as int - c1 as int == tac_period(tac as int),
{
    let p = tac_period(tac as int);
    lemma_falling_edge_aligned(c1, tac);
    lemma_falling_edge_aligned(c2, tac);
    assert(c1 as int % p == p - 1);
    assert(c2 as int % p == p - 1);
    assert((c2 as int - c1 as int) % p == 0) by {
        vstd::arithmetic::div_mod::lemma_mod_equivalence(c2 as int, c1 as int, p);
    }
    let d = c2 as int - c1 as int;
    if d > p {
        let mid = (c1 + p as u16) as u16;
        assert(c1 < mid < c2);
        assert(mid as int % p == p - 1) by {
            vstd::arithmetic::div_mod::lemma_mod_add_multiples_vanish(c1 as int, p);
        }
        lemma_falling_edge_aligned(mid, tac);
        assert(falling_edge(mid, tac as int));
        assert(false);
    }
    if d < p {
        vstd::arithmetic::div_mod::lemma_small_mod(d as nat, p as nat);
        assert(false);
    }
}

} // verus!
