//! The ultrasonic range finder (HC-SR04 style): a trigger pulse starts a
//! measurement, the echo pin then stays high for as long as the sound took
//! to come back. The main loop samples the pins and the clock; the
//! decisions are taken here, one sample at a time.
use vstd::prelude::*;

verus! {

/// How long to wait for the echo pin to rise, in milliseconds.
pub const ECHO_TIMEOUT_MS: u32 = 200;
/// Echo time, in microseconds, per centimetre of distance (there and back).
pub const MICROS_PER_CM: u32 = 58;
/// The distance reported when no echo came back in time.
pub const NO_ECHO: u32 = u32::MAX;

/// Where a measurement stands.
#[derive(PartialEq, Eq, Structural, Clone, Copy, Debug)]
pub enum EchoPhase {
    /// The trigger pulse went out at `start_ms`; the echo pin is still low.
    AwaitingEcho { start_ms: u32 },
    /// The echo pin rose at `start_us` and is still high.
    TimingEcho { start_us: u32 },
    /// The measurement is over.
    Finished { distance_cm: u32 },
}

/// One sample that the main loop takes.
#[derive(PartialEq, Eq, Structural, Clone, Copy, Debug)]
pub enum EchoSample {
    /// The echo pin reads low; the millisecond clock reads `now_ms`.
    Low { now_ms: u32 },
    /// The echo pin reads high for the first time; the microsecond clock
    /// reads `now_us`.
    Rose { now_us: u32 },
    /// The echo pin still reads high.
    High,
    /// The echo pin reads low again; the microsecond clock reads `now_us`.
    Fell { now_us: u32 },
}

/// The sample that `phase` accepts does not run a clock backwards.
pub open spec fn sample_in_order(phase: EchoPhase, sample: EchoSample) -> bool {
    match (phase, sample) {
        (EchoPhase::AwaitingEcho { start_ms }, EchoSample::Low { now_ms }) => start_ms <= now_ms,
        (EchoPhase::TimingEcho { start_us }, EchoSample::Fell { now_us }) => start_us <= now_us,
        _ => true,
    }
}

/// The phase after `sample`: a low echo pin past the timeout ends the
/// measurement with `NO_ECHO`; a rising echo pin starts the timing; a
/// falling one ends it with the echo time over `MICROS_PER_CM`. Any other
/// sample, and any sample once the measurement is over, changes nothing.
pub open spec fn next_phase_of(phase: EchoPhase, sample: EchoSample) -> EchoPhase {
    match (phase, sample) {
        (EchoPhase::AwaitingEcho { start_ms }, EchoSample::Low { now_ms }) => {
            if now_ms - start_ms > ECHO_TIMEOUT_MS {
                EchoPhase::Finished { distance_cm: NO_ECHO }
            } else {
                phase
            }
        },
        (EchoPhase::AwaitingEcho { .. }, EchoSample::Rose { now_us }) => {
            EchoPhase::TimingEcho { start_us: now_us }
        },
        (EchoPhase::TimingEcho { start_us }, EchoSample::Fell { now_us }) => {
            EchoPhase::Finished { distance_cm: ((now_us - start_us) / (MICROS_PER_CM as int)) as u32 }
        },
        _ => phase,
    }
}

impl EchoPhase {
    /// A measurement whose trigger pulse goes out at `now_ms`.
    pub fn start(now_ms: u32) -> (p: EchoPhase)
        ensures
            p == (EchoPhase::AwaitingEcho { start_ms: now_ms }),
    {
        EchoPhase::AwaitingEcho { start_ms: now_ms }
    }

    /// The distance in centimetres once the measurement is over.
    pub fn distance(&self) -> (d: Option<u32>)
        ensures
            d == (match *self {
                EchoPhase::Finished { distance_cm } => Some(distance_cm),
                _ => None,
            }),
    {
        match *self {
            EchoPhase::Finished { distance_cm } => Some(distance_cm),
            _ => None,
        }
    }
}

/// Takes one sample into account.
pub fn next_phase(phase: EchoPhase, sample: EchoSample) -> (p: EchoPhase)
    requires
        sample_in_order(phase, sample),
    ensures
        p == next_phase_of(phase, sample),
{
    match (phase, sample) {
        (EchoPhase::AwaitingEcho { start_ms }, EchoSample::Low { now_ms }) => {
            if now_ms - start_ms > ECHO_TIMEOUT_MS {
                EchoPhase::Finished { distance_cm: NO_ECHO }
            } else {
                phase
            }
        },
        (EchoPhase::AwaitingEcho { .. }, EchoSample::Rose { now_us }) => {
            EchoPhase::TimingEcho { start_us: now_us }
        },
        (EchoPhase::TimingEcho { start_us }, EchoSample::Fell { now_us }) => {
            let duration: u32 = now_us - start_us;
            EchoPhase::Finished { distance_cm: duration / MICROS_PER_CM }
        },
        _ => phase,
    }
}

/// A finished measurement stays finished, whatever is sampled after it.
pub proof fn lemma_finished_is_final(distance_cm: u32, sample: EchoSample)
    ensures
        next_phase_of(EchoPhase::Finished { distance_cm }, sample) == (EchoPhase::Finished {
            distance_cm,
        }),
{
}

/// A measured echo never reads as `NO_ECHO`: that value comes only from
/// the timeout.
pub proof fn lemma_measured_distance_is_not_no_echo(start_us: u32, now_us: u32)
    requires
        start_us <= now_us,
    ensures
        next_phase_of(EchoPhase::TimingEcho { start_us }, EchoSample::Fell { now_us })
            != (EchoPhase::Finished { distance_cm: NO_ECHO }),
{
    assert((now_us - start_us) / 58 <= u32::MAX / 58) by {
        vstd::arithmetic::div_mod::lemma_div_is_ordered((now_us - start_us) as int, u32::MAX as int, 58);
    }
}


/// While the echo pin stays low, the measurement gives up with `u32::MAX`
/// once more than 200 ms have passed since the trigger, and keeps waiting,
/// unchanged, up to 200 ms.
pub proof fn lemma_echo_timeout(start_ms: u32, now_ms: u32)
    requires
        start_ms <= now_ms,
    ensures
        now_ms - start_ms > 200 ==> next_phase_of(
            EchoPhase::AwaitingEcho { start_ms },
            EchoSample::Low { now_ms },
        ) == (EchoPhase::Finished { distance_cm: u32::MAX }),
        now_ms - start_ms <= 200 ==> next_phase_of(
            EchoPhase::AwaitingEcho { start_ms },
            EchoSample::Low { now_ms },
        ) == (EchoPhase::AwaitingEcho { start_ms }),
{
}

/// A rising echo pin starts the timing at the moment it was seen.
pub proof fn lemma_echo_rise_starts_timing(start_ms: u32, now_us: u32)
    ensures
        next_phase_of(EchoPhase::AwaitingEcho { start_ms }, EchoSample::Rose { now_us })
            == (EchoPhase::TimingEcho { start_us: now_us }),
{
}

/// A falling echo pin ends the measurement with the distance in whole
/// centimetres: the largest `d` with `58 * d` not above the echo time in
/// microseconds.
pub proof fn lemma_echo_distance(start_us: u32, now_us: u32)
    requires
        start_us <= now_us,
    ensures
        match next_phase_of(EchoPhase::TimingEcho { start_us }, EchoSample::Fell { now_us }) {
            EchoPhase::Finished { distance_cm } => {
                &&& 58 * distance_cm <= now_us - start_us
                &&& now_us - start_us < 58 * distance_cm + 58
            },
            _ => false,
        },
{
    vstd::arithmetic::div_mod::lemma_fundamental_div_mod((now_us - start_us) as int, 58);
    vstd::arithmetic::div_mod::lemma_div_is_ordered((now_us - start_us) as int, u32::MAX as int, 58);
    vstd::arithmetic::div_mod::lemma_div_pos_is_pos((now_us - start_us) as int, 58);
}
/// While the echo pin stays high the timing goes on from the same start.
pub proof fn lemma_echo_high_keeps_timing(start_us: u32)
    ensures
        next_phase_of(EchoPhase::TimingEcho { start_us }, EchoSample::High)
            == (EchoPhase::TimingEcho { start_us }),
{
}

} // verus!
