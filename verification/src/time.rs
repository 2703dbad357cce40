//! System time: a monotone count of master clocks at the base rate.
//! Double-speed mode is simulated by letting unaffected components take
//! twice the time, so the counter itself always advances at 4.194304 MHz.

use vstd::prelude::*;

verus! {

/// A point of emulated time, counted in base-rate master clocks.
#[derive(Debug, Clone, Copy, PartialEq, Eq, Structural)]
pub struct SystemTime {
    pub base_master_clock_cycles: u64,
}

impl SystemTime {
    /// Time zero.
    pub fn new() -> (r: SystemTime)
        ensures
            r.base_master_clock_cycles == 0,
    {
        SystemTime { base_master_clock_cycles: 0 }
    }

    /// A time given directly in master clocks.
    pub fn from_master_clocks(master_clocks: u64) -> (r: SystemTime)
        ensures
            r.base_master_clock_cycles == master_clocks,
    {
        SystemTime { base_master_clock_cycles: master_clocks }
    }

    /// A time given in system clocks (M-cycles): four master clocks each.
    pub fn from_system_clocks(system_clocks: u64) -> (r: SystemTime)
        requires
            system_clocks * 4 <= u64::MAX,
        ensures
            r.base_master_clock_cycles as int == system_clocks as int * 4,
    {
        SystemTime { base_master_clock_cycles: system_clocks * 4 }
    }

    /// The raw master-clock count.
    pub fn master_clocks(&self) -> (r: u64)
        ensures
            r == self.base_master_clock_cycles,
    {
        self.base_master_clock_cycles
    }

    /// This time advanced by `delta`, stopping at the counter's end
    /// rather than wrapping.
    pub fn saturating_add(self, delta: SystemTime) -> (r: SystemTime)
        ensures
            r.base_master_clock_cycles as int == if self.base_master_clock_cycles as int
                + delta.base_master_clock_cycles as int <= u64::MAX {
                self.base_master_clock_cycles as int + delta.base_master_clock_cycles as int
            } else {
                u64::MAX as int
            },
    {
        SystemTime {
            base_master_clock_cycles: self.base_master_clock_cycles.saturating_add(
                delta.base_master_clock_cycles,
            ),
        }
    }

    /// Whether this time lies before another.
    pub fn is_before(self, other: SystemTime) -> (r: bool)
        ensures
            r == (self.base_master_clock_cycles < other.base_master_clock_cycles),
    {
        self.base_master_clock_cycles < other.base_master_clock_cycles
    }

    /// The distance from `earlier` to this time.
    pub fn since(self, earlier: SystemTime) -> (r: SystemTime)
        requires
            earlier.base_master_clock_cycles <= self.base_master_clock_cycles,
        ensures
            r.base_master_clock_cycles as int == self.base_master_clock_cycles as int
                - earlier.base_master_clock_cycles as int,
    {
        SystemTime {
            base_master_clock_cycles: self.base_master_clock_cycles
                - earlier.base_master_clock_cycles,
        }
    }
}

} // verus!
