//! The 20 kHz time base of the infrared decoder: timer 2 in CTC mode
//! raises a compare interrupt that advances a tick counter.
use vstd::prelude::*;

use crate::timing::{timer2_prescaler, CPU_FREQUENCY_HZ};

verus! {

/// Clock-select bits of timer 2: the CPU clock over 8.
pub const TIMER2_CLOCK_SELECT: u8 = 0b010;
/// Waveform bits `WGM21:20` of timer 2: clear timer on compare match
/// (CTC), with the top value in `OCR2A`.
pub const TIMER2_WGM_CTC: u8 = 0b10;

/// The tick count after one compare interrupt.
pub open spec fn after_tick(ticks: nat) -> nat {
    ticks + 1
}

/// The tick count after `k` compare interrupts.
pub open spec fn after_ticks(ticks: nat, k: nat) -> nat
    decreases k,
{
    if k == 0 {
        ticks
    } else {
        after_ticks(after_tick(ticks), (k - 1) as nat)
    }
}

/// Ticks of the infrared time base.
pub struct IrClock {
    counter: u32,
}

impl IrClock {
    /// Ticks per second.
    pub const FREQ: u32 = 20_000;
    /// The compare value of timer 2 (`OCR2A`): one tick every
    /// `TOP + 1` timer counts.
    pub const TOP: u8 = 99;

    /// Ticks counted so far.
    pub closed spec fn ticks(&self) -> u32 {
        self.counter
    }

    /// A time base that has not ticked yet.
    pub fn new() -> (c: IrClock)
        ensures
            c.ticks() == 0,
    {
        IrClock { counter: 0 }
    }

    /// The body of the timer-2 compare interrupt: one more tick.
    pub fn tick(&mut self)
        requires
            old(self).ticks() < u32::MAX,
        ensures
            final(self).ticks() == after_tick(old(self).ticks() as nat),
    {
        self.counter = self.counter + 1;
    }

    /// Ticks counted so far.
    pub fn now(&self) -> (t: u32)
        ensures
            t == self.ticks(),
    {
        self.counter
    }
}

impl Default for IrClock {
    fn default() -> (c: IrClock)
        ensures
            c.ticks() == 0,
    {
        IrClock::new()
    }
}

/// After `k` compare interrupts the time base has advanced by exactly `k`
/// ticks.
pub proof fn lemma_ticks_add_up(ticks: nat, k: nat)
    ensures
        after_ticks(ticks, k) == ticks + k,
    decreases k,
{
    if k > 0 {
        lemma_ticks_add_up(after_tick(ticks), (k - 1) as nat);
    }
}

/// With the prescaler at 8 and a compare value of `TOP`, timer 2 ticks
/// at `FREQ`.
pub proof fn lemma_tick_frequency()
    ensures
        (CPU_FREQUENCY_HZ as int) / (timer2_prescaler(TIMER2_CLOCK_SELECT) * (IrClock::TOP + 1)) == IrClock::FREQ,
{
    assert(16_000_000int / (8int * 100) == 20_000) by (nonlinear_arith);
}

} // verus!
