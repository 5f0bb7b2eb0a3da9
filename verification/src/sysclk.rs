//! The system clock: cycle accounting toward the next timer tick.

use vstd::prelude::*;

verus! {

/// Counts the cycles the processor has consumed, both within the current
/// tick and over all time.
#[derive(Copy, Clone, Debug)]
pub struct SystemClock {
    /// How many cycles make up one tick.
    pub cycles_per_tick: u32,
    /// Cycles consumed since the last tick began.
    pub cycles_this_tick: u32,
    /// Cycles consumed since the clock was created.
    pub cycles_all_time: usize,
}

impl SystemClock {
    /// A clock at the start of its first tick.
    pub fn new(cycles_per_tick: u32) -> (c: SystemClock)
        ensures
            c.cycles_per_tick == cycles_per_tick,
            c.cycles_this_tick == 0,
            c.cycles_all_time == 0,
    {
        SystemClock { cycles_per_tick, cycles_this_tick: 0, cycles_all_time: 0 }
    }

    /// Account for `amnt` consumed cycles. Returns whether the current tick
    /// is complete.
    pub fn consume_cycles(&mut self, amnt: u32) -> (r: bool)
        requires
            old(self).cycles_this_tick + amnt <= u32::MAX,
            old(self).cycles_all_time + amnt <= usize::MAX,
        ensures
            final(self).cycles_per_tick == old(self).cycles_per_tick,
            final(self).cycles_this_tick == old(self).cycles_this_tick + amnt,
            final(self).cycles_all_time == old(self).cycles_all_time + amnt,
            r == (final(self).cycles_this_tick >= final(self).cycles_per_tick),
    {
        self.cycles_this_tick = self.cycles_this_tick + amnt;
        self.cycles_all_time = self.cycles_all_time + (amnt as usize);
        return self.cycles_this_tick >= self.cycles_per_tick;
    }

    /// Begin a new tick: the per-tick count restarts at zero.
    pub fn new_tick(&mut self)
        ensures
            final(self).cycles_per_tick == old(self).cycles_per_tick,
            final(self).cycles_this_tick == 0,
            final(self).cycles_all_time == old(self).cycles_all_time,
    {
        self.cycles_this_tick = 0;
    }
}

} // verus!
