//! The timer-0 clock: the overflow interrupt keeps a count of overflows,
//! a millisecond reading and a fractional correction, in the manner of
//! the Arduino core's `wiring.c`.
use vstd::prelude::*;

use crate::timing::{timer01_prescaler, CPU_FREQUENCY_HZ, TIMER0_CLOCK_SELECT};

verus! {

/// CPU cycles in one microsecond (16 MHz clock).
pub const CLOCK_CYCLES_PER_MICROSECOND: u32 = 16;
/// Microseconds between two overflows of timer 0 (prescaler 64, see
/// `TIMER0_CLOCK_SELECT`; 256 ticks).
pub const MICROS_PER_TIMER_OVERFLOW: u32 = (64 * 256) / CLOCK_CYCLES_PER_MICROSECOND;
/// Whole milliseconds added on every overflow.
pub const MILLIS_INC: u32 = MICROS_PER_TIMER_OVERFLOW / 1000;
/// Fractional increment on every overflow, in units of 8 microseconds.
pub const FRACT_INC: u32 = (MICROS_PER_TIMER_OVERFLOW % 1000) >> 3;
/// One millisecond in units of 8 microseconds.
pub const FRACT_MAX: u32 = 1000 >> 3;

/// The values that the derived constants take.
pub proof fn lemma_clock_constants()
    ensures
        CLOCK_CYCLES_PER_MICROSECOND == CPU_FREQUENCY_HZ / 1_000_000,
        timer01_prescaler(TIMER0_CLOCK_SELECT) == 64,
        64u32 / CLOCK_CYCLES_PER_MICROSECOND == 4,
        MICROS_PER_TIMER_OVERFLOW == timer01_prescaler(TIMER0_CLOCK_SELECT) * 256 / (CLOCK_CYCLES_PER_MICROSECOND as int),
        MICROS_PER_TIMER_OVERFLOW == 1024,
        MILLIS_INC == 1,
        FRACT_INC == 3,
        FRACT_MAX == 125,
{
    assert((1024u32 % 1000) >> 3 == 3u32) by (bit_vector);
    assert(1000u32 >> 3 == 125u32) by (bit_vector);
}

/// What the timer-0 overflow interrupt keeps between two runs.
pub struct ClockState {
    /// Overflows of timer 0 counted so far.
    pub overflow_count: nat,
    /// The millisecond reading that `Timer::millis` reports.
    pub millis: nat,
    /// The fractional correction, in units of 8 microseconds.
    pub fract: nat,
}

impl ClockState {
    /// The fraction is always below one millisecond.
    pub open spec fn wf(self) -> bool {
        self.fract < FRACT_MAX
    }

    /// Whether this overflow carries the fraction into a whole millisecond.
    pub open spec fn carries(self) -> bool {
        self.fract + FRACT_INC >= FRACT_MAX
    }

    /// The state after one run of the overflow interrupt: one more
    /// overflow; the millisecond reading advances by `MILLIS_INC`, and by
    /// one more when the fraction carries into a whole millisecond.
    pub open spec fn after_overflow(self) -> ClockState {
        ClockState {
            overflow_count: self.overflow_count + 1,
            millis: (self.millis + MILLIS_INC + if self.carries() { 1int } else { 0int }) as nat,
            fract: if self.carries() {
                (self.fract + FRACT_INC - FRACT_MAX) as nat
            } else {
                (self.fract + FRACT_INC) as nat
            },
        }
    }

    /// The overflow interrupt can run once more with all its counts
    /// staying within `u32`.
    pub open spec fn can_overflow(self) -> bool {
        &&& self.after_overflow().overflow_count <= u32::MAX
        &&& self.after_overflow().millis <= u32::MAX
    }

    /// The state after `n` runs of the overflow interrupt.
    pub open spec fn after_overflows(self, n: nat) -> ClockState
        decreases n,
    {
        if n == 0 {
            self
        } else {
            self.after_overflow().after_overflows((n - 1) as nat)
        }
    }
}

/// The overflow count once the pending-overflow flag has been taken into
/// account: a set flag with a counter below 255 means that an overflow
/// happened that the interrupt has not counted yet.
pub open spec fn overflows_seen(overflow_count: nat, tcnt: u8, overflow_pending: bool) -> nat {
    if overflow_pending && tcnt < 255 {
        overflow_count + 1
    } else {
        overflow_count
    }
}

/// Microseconds since the clock started: the ticks of timer 0 (256 per
/// overflow, the overflow part kept to 32 bits), 4 microseconds per tick.
pub open spec fn micros_of(overflow_count: nat, tcnt: u8, overflow_pending: bool) -> int {
    let ov = overflows_seen(overflow_count, tcnt, overflow_pending);
    ((ov * 256) % 0x1_0000_0000 + tcnt) * (64u32 / CLOCK_CYCLES_PER_MICROSECOND)
}

/// The clock driven by the timer-0 overflow interrupt.
pub struct Timer {
    overflow_count: u32,
    millis: u32,
    fract: u32,
}

impl View for Timer {
    type V = ClockState;

    closed spec fn view(&self) -> ClockState {
        ClockState {
            overflow_count: self.overflow_count as nat,
            millis: self.millis as nat,
            fract: self.fract as nat,
        }
    }
}

impl Timer {
    #[verifier::type_invariant]
    spec fn inv(self) -> bool {
        self.fract < FRACT_MAX
    }

    /// A clock that has seen no overflow yet.
    pub fn new() -> (t: Timer)
        ensures
            t@ == (ClockState { overflow_count: 0, millis: 0, fract: 0 }),
    {
        proof {
            lemma_clock_constants();
        }
        Timer { overflow_count: 0, millis: 0, fract: 0 }
    }

    /// Nothing is left to set up once the clock exists.
    pub fn init(&self)
        ensures
            self@.wf(),
    {
        proof {
            use_type_invariant(self);
        }
    }

    /// The body of the timer-0 overflow interrupt.
    pub fn on_overflow(&mut self)
        requires
            old(self)@.can_overflow(),
        ensures
            final(self)@ == old(self)@.after_overflow(),
            final(self)@.wf(),
    {
        proof {
            use_type_invariant(&*self);
            lemma_clock_constants();
        }
        let mut m: u32 = self.millis;
        let mut f: u32 = self.fract;
        m = m + MILLIS_INC;
        f = f + FRACT_INC;
        if f >= FRACT_MAX {
            f = f - FRACT_MAX;
            m = m + 1;
        }
        let count: u32 = self.overflow_count + 1;
        *self = Timer { overflow_count: count, millis: m, fract: f };
    }

    /// Whether the overflow interrupt can run once more without its
    /// arithmetic leaving `u32`: exactly the condition that `on_overflow`
    /// requires.
    pub fn can_count_overflow(&self) -> (ok: bool)
        ensures
            ok == self@.can_overflow(),
    {
        proof {
            use_type_invariant(self);
            lemma_clock_constants();
        }
        if self.overflow_count == u32::MAX {
            false
        } else if self.millis >= u32::MAX - 1 {
            self.millis == u32::MAX - 1 && self.fract + FRACT_INC < FRACT_MAX
        } else {
            true
        }
    }

    /// Whether `micros` can compute its reading without leaving `u32`:
    /// exactly the condition that it requires.
    pub fn can_read_micros(&self, tcnt: u8, overflow_pending: bool) -> (ok: bool)
        ensures
            ok == (overflows_seen(self@.overflow_count, tcnt, overflow_pending) <= u32::MAX
                && micros_of(self@.overflow_count, tcnt, overflow_pending) <= u32::MAX),
    {
        let mut overflows: u32 = self.overflow_count;
        if overflow_pending && tcnt < 255u8 {
            if overflows == u32::MAX {
                return false;
            }
            overflows = overflows + 1;
        }
        let shifted: u32 = overflows << 8u32;
        assert(shifted == (overflows as int * 256) % 0x1_0000_0000) by (bit_vector)
            requires
                shifted == overflows << 8u32,
        ;
        let ticks: u32 = shifted + tcnt as u32;
        proof {
            lemma_clock_constants();
        }
        let per_tick: u32 = 64 / CLOCK_CYCLES_PER_MICROSECOND;
        assert(per_tick == 4);
        ticks <= u32::MAX / per_tick
    }

    /// The millisecond reading.
    pub fn millis(&self) -> (r: u32)
        ensures
            r == self@.millis,
            self@.wf(),
    {
        proof {
            use_type_invariant(self);
        }
        self.millis
    }

    /// Microseconds since the clock started, from the counter register of
    /// timer 0 (`tcnt`) and its overflow flag, both read with interrupts
    /// off together with this clock.
    pub fn micros(&self, tcnt: u8, overflow_pending: bool) -> (r: u32)
        requires
            overflows_seen(self@.overflow_count, tcnt, overflow_pending) <= u32::MAX,
            micros_of(self@.overflow_count, tcnt, overflow_pending) <= u32::MAX,
        ensures
            r == micros_of(self@.overflow_count, tcnt, overflow_pending),
    {
        let mut overflows: u32 = self.overflow_count;
        if overflow_pending && tcnt < 255u8 {
            overflows = overflows + 1;
        }
        let shifted: u32 = overflows << 8u32;
        assert(shifted == (overflows as int * 256) % 0x1_0000_0000) by (bit_vector)
            requires
                shifted == overflows << 8u32,
        ;
        let ticks: u32 = shifted + tcnt as u32;
        ticks * (64 / CLOCK_CYCLES_PER_MICROSECOND)
    }
}

/// The overflow interrupt keeps the fraction below one millisecond.
pub proof fn lemma_overflow_keeps_fraction(s: ClockState)
    requires
        s.wf(),
    ensures
        s.after_overflow().wf(),
{
    lemma_clock_constants();
}

/// After `n` overflows the count has grown by `n` and the fraction has
/// advanced by `n` increments of `FRACT_INC`, taken modulo `FRACT_MAX`.
pub proof fn lemma_fraction_after_overflows(s: ClockState, n: nat)
    requires
        s.wf(),
    ensures
        s.after_overflows(n).overflow_count == s.overflow_count + n,
        s.after_overflows(n).fract == (s.fract + FRACT_INC * n) % (FRACT_MAX as int),
        s.after_overflows(n).wf(),
    decreases n,
{
    lemma_clock_constants();
    if n == 0 {
        assert(s.fract % 125 == s.fract) by {
            vstd::arithmetic::div_mod::lemma_small_mod(s.fract, 125);
        }
    } else {
        let t = s.after_overflow();
        lemma_overflow_keeps_fraction(s);
        lemma_fraction_after_overflows(t, (n - 1) as nat);
        let a: int = s.fract + 3int;
        assert(t.fract == a % 125) by {
            if a >= 125 {
                assert(a % 125 == a - 125) by (nonlinear_arith)
                    requires
                        125 <= a < 250,
                ;
            } else {
                vstd::arithmetic::div_mod::lemma_small_mod(a as nat, 125);
            }
        }
        assert((t.fract + 3 * (n - 1)) % 125 == (s.fract + 3 * n) % 125) by {
            vstd::arithmetic::div_mod::lemma_add_mod_noop(a, 3 * (n - 1), 125);
            vstd::arithmetic::div_mod::lemma_mod_twice(a, 125);
            vstd::arithmetic::div_mod::lemma_add_mod_noop(a % 125, 3 * (n - 1), 125);
        }
    }
}

/// Every `FRACT_MAX` overflows the fraction comes back to where it was:
/// the corrections repeat with that period.
pub proof fn lemma_fraction_period(s: ClockState)
    requires
        s.wf(),
    ensures
        s.after_overflows(FRACT_MAX as nat).fract == s.fract,
{
    lemma_clock_constants();
    lemma_fraction_after_overflows(s, 125);
    assert((s.fract + 3 * 125) % 125 == s.fract) by {
        vstd::arithmetic::div_mod::lemma_mod_multiples_vanish(3, s.fract as int, 125);
        vstd::arithmetic::div_mod::lemma_small_mod(s.fract, 125);
    }
}

/// Every overflow advances the millisecond reading: by one, or by two
/// when the fraction carries. The reading never stalls nor goes back.
pub proof fn lemma_millis_advance(s: ClockState)
    requires
        s.wf(),
    ensures
        s.millis + 1 <= s.after_overflow().millis <= s.millis + 2,
        s.after_overflow().millis == s.millis + 2 <==> s.fract + FRACT_INC >= FRACT_MAX,
{
    lemma_clock_constants();
}

/// The millisecond reading and the fraction together count eighths of a
/// millisecond: every overflow adds 128 of them, 1.024 ms.
pub proof fn lemma_eighths_after_overflows(s: ClockState, n: nat)
    requires
        s.wf(),
    ensures
        s.after_overflows(n).millis * FRACT_MAX + s.after_overflows(n).fract
            == s.millis * FRACT_MAX + s.fract + 128 * n,
    decreases n,
{
    lemma_clock_constants();
    if n > 0 {
        let t = s.after_overflow();
        lemma_overflow_keeps_fraction(s);
        lemma_eighths_after_overflows(t, (n - 1) as nat);
    }
}

/// The clock at reset.
pub open spec fn reset_clock() -> ClockState {
    ClockState { overflow_count: 0, millis: 0, fract: 0 }
}

/// From reset, after `n` overflows of 1024 microseconds each, the reading
/// holds the whole milliseconds elapsed, and the fraction the rest in
/// eighths of a millisecond.
pub proof fn lemma_millis_from_reset(n: nat)
    ensures
        reset_clock().after_overflows(n).overflow_count == n,
        reset_clock().after_overflows(n).millis * FRACT_MAX + reset_clock().after_overflows(n).fract == 128 * n,
        reset_clock().after_overflows(n).millis == (MICROS_PER_TIMER_OVERFLOW * n) / 1000,
        reset_clock().after_overflows(n).fract == (FRACT_INC * n) % (FRACT_MAX as int),
{
    lemma_clock_constants();
    let s = reset_clock();
    lemma_fraction_after_overflows(s, n);
    lemma_eighths_after_overflows(s, n);
    let m: int = s.after_overflows(n).millis as int;
    let f: int = s.after_overflows(n).fract as int;
    assert(m * 1000 + 8 * f == 1024 * n);
    vstd::arithmetic::div_mod::lemma_fundamental_div_mod_converse(1024 * n as int, 1000, m, 8 * f);
}

/// A reading of the counter register and the overflow flag, taken with
/// interrupts off when timer 0 has counted `ticks` ticks since the clock
/// started and the interrupt has serviced `overflow_count` overflows: the
/// counter holds `ticks` modulo 256, and the flag is set when one overflow
/// still waits for the interrupt, which runs before the counter comes back
/// to 255.
pub open spec fn consistent_reading(overflow_count: nat, tcnt: u8, overflow_pending: bool, ticks: nat) -> bool {
    &&& tcnt == ticks % 256
    &&& if overflow_pending {
        overflow_count + 1 == ticks / 256 && tcnt < 255
    } else {
        overflow_count == ticks / 256
    }
}

/// A consistent reading gives 4 microseconds per tick of timer 0, as long
/// as the reading fits in 32 bits.
pub proof fn lemma_micros_counts_ticks(overflow_count: nat, tcnt: u8, overflow_pending: bool, ticks: nat)
    requires
        consistent_reading(overflow_count, tcnt, overflow_pending, ticks),
        4 * ticks <= u32::MAX,
    ensures
        micros_of(overflow_count, tcnt, overflow_pending) == 4 * ticks,
{
    lemma_clock_constants();
    let ov = overflows_seen(overflow_count, tcnt, overflow_pending);
    assert(ov == ticks / 256);
    vstd::arithmetic::div_mod::lemma_fundamental_div_mod(ticks as int, 256);
    assert(ov * 256 <= ticks);
    vstd::arithmetic::div_mod::lemma_small_mod((ov * 256) as nat, 0x1_0000_0000);
}

/// `micros` never runs backwards: of two consistent readings, the later one
/// is not smaller, as long as both fit in 32 bits.
pub proof fn lemma_micros_never_decrease(
    count1: nat,
    tcnt1: u8,
    pending1: bool,
    ticks1: nat,
    count2: nat,
    tcnt2: u8,
    pending2: bool,
    ticks2: nat,
)
    requires
        consistent_reading(count1, tcnt1, pending1, ticks1),
        consistent_reading(count2, tcnt2, pending2, ticks2),
        ticks1 <= ticks2,
        4 * ticks2 <= u32::MAX,
    ensures
        micros_of(count1, tcnt1, pending1) <= micros_of(count2, tcnt2, pending2),
{
    lemma_micros_counts_ticks(count1, tcnt1, pending1, ticks1);
    lemma_micros_counts_ticks(count2, tcnt2, pending2, ticks2);
}

/// From reset, after `n` overflows and with no overflow waiting, the two
/// readings tell the same time: the millisecond reading is the microsecond
/// reading in whole milliseconds, or up to two below it.
pub proof fn lemma_millis_agrees_with_micros(n: nat, tcnt: u8)
    requires
        n < 0x40_0000,
    ensures
        ({
            let m = reset_clock().after_overflows(n).millis;
            let us = micros_of(reset_clock().after_overflows(n).overflow_count, tcnt, false);
            &&& us == MICROS_PER_TIMER_OVERFLOW * n + 4 * tcnt
            &&& m <= us / 1000 <= m + 2
        }),
{
    lemma_clock_constants();
    lemma_millis_from_reset(n);
    let ticks: nat = (256 * n + tcnt) as nat;
    vstd::arithmetic::div_mod::lemma_fundamental_div_mod_converse(ticks as int, 256, n as int, tcnt as int);
    lemma_micros_counts_ticks(n, tcnt, false, ticks);
    let a: int = 1024 * n as int;
    let us: int = a + 4 * tcnt;
    assert(0 <= 4 * tcnt <= 1020);
    vstd::arithmetic::div_mod::lemma_div_is_ordered(a, us, 1000);
    vstd::arithmetic::div_mod::lemma_fundamental_div_mod(a, 1000);
    vstd::arithmetic::div_mod::lemma_fundamental_div_mod(us, 1000);
    assert(us / 1000 <= a / 1000 + 2) by (nonlinear_arith)
        requires
            a == 1000 * (a / 1000) + a % 1000,
            us == 1000 * (us / 1000) + us % 1000,
            0 <= a % 1000 < 1000,
            0 <= us % 1000 < 1000,
            a <= us <= a + 1020,
    ;
}

} // verus!
