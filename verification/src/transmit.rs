//! The DMX physical-layer transmit sequence.
//!
//! Every frame on the wire is preceded by a break (the line held in its
//! break state) of at least the standard's minimum duration, and optionally
//! a short mark-after-break before the data bits start. This module fixes
//! the exact order of the steps and their durations; performing them — the
//! drain, the break ioctls and the write — happens outside the library,
//! step by step in the order given here. The busy-wait that paces the break
//! lives here too: sub-millisecond sleeps through the scheduler are too
//! jittery for break timing, so the delay spins on the monotonic clock.

use vstd::prelude::*;

verus! {

/// How long the break is held, in microseconds. The DMX512 standard asks
/// for at least 88; common practice transmits 120 or more.
pub const DMX_BREAK_MICROS: u64 = 138;

/// The break-time floor the sequence is checked against.
pub const DMX_BREAK_FLOOR_MICROS: u64 = 120;

/// One step of the transmit sequence.
#[derive(Clone, Copy, Debug, PartialEq, Eq, Structural)]
pub enum TxStep {
    /// Block until output already queued to the hardware is physically
    /// sent, so the break cannot swallow buffered data.
    DrainOutput,
    /// Drive the line into its break state.
    AssertBreak,
    /// Busy-wait for this many microseconds.
    HoldMicros(u64),
    /// Return the line to its idle mark state.
    ClearBreak,
    /// Write the 513 frame bytes in a single write.
    WriteFrame,
}

/// The transmit sequence: drain, break held for the fixed duration, then —
/// when a mark-after-break is configured — the mark, then the frame write.
/// A mark-after-break of zero means the variant without one.
pub open spec fn transmit_sequence_spec(mab_micros: u64) -> Seq<TxStep> {
    let lead = seq![
        TxStep::DrainOutput,
        TxStep::AssertBreak,
        TxStep::HoldMicros(DMX_BREAK_MICROS),
        TxStep::ClearBreak,
    ];
    if mab_micros > 0 {
        lead + seq![TxStep::HoldMicros(mab_micros), TxStep::WriteFrame]
    } else {
        lead + seq![TxStep::WriteFrame]
    }
}

/// Materializes the transmit sequence. The break step always holds the
/// line for at least the standard's floor, and the frame write is always
/// the last step.
pub fn transmit_sequence(mab_micros: u64) -> (steps: Vec<TxStep>)
    ensures
        steps@ == transmit_sequence_spec(mab_micros),
        steps@[0] == TxStep::DrainOutput,
        steps@[1] == TxStep::AssertBreak,
        steps@[2] == TxStep::HoldMicros(DMX_BREAK_MICROS),
        DMX_BREAK_MICROS >= DMX_BREAK_FLOOR_MICROS,
        steps@[3] == TxStep::ClearBreak,
        steps@.last() == TxStep::WriteFrame,
{
    let mut steps: Vec<TxStep> = Vec::new();
    steps.push(TxStep::DrainOutput);
    steps.push(TxStep::AssertBreak);
    steps.push(TxStep::HoldMicros(DMX_BREAK_MICROS));
    steps.push(TxStep::ClearBreak);
    if mab_micros > 0 {
        steps.push(TxStep::HoldMicros(mab_micros));
    }
    steps.push(TxStep::WriteFrame);
    proof {
        assert(steps@ =~= transmit_sequence_spec(mab_micros));
    }
    steps
}

#[verifier::external_type_specification]
#[verifier::external_body]
pub struct ExInstant(std::time::Instant);

/// Relies on std::time::Instant::now: a reading of the monotonic clock.
/// The value depends on when the call runs, so nothing is stated of it.
#[verifier::external_body]
fn monotonic_now() -> std::time::Instant {
    std::time::Instant::now()
}

/// Relies on std::time::Instant::elapsed: the time since `start`, handed
/// back as whole microseconds. The value depends on the clock, so nothing
/// is stated of it.
#[verifier::external_body]
fn elapsed_micros(start: &std::time::Instant) -> u64 {
    start.elapsed().as_micros() as u64
}

/// Busy-waits until at least `micros` microseconds have passed on the
/// monotonic clock. A spin is deliberate: an OS sleep this short wakes too
/// late too often for break timing, so the core trades a short, bounded
/// spin for accuracy. An enormous iteration cap keeps the loop total even
/// if the clock were to stand still. Wall-clock behaviour is not modelled,
/// so no more is claimed here; the transmit sequence states where the
/// delay belongs.
pub fn spin_sleep(micros: u64) {
    let start = monotonic_now();
    let mut fuel: u64 = u64::MAX;
    while fuel > 0
        decreases fuel,
    {
        if elapsed_micros(&start) >= micros {
            return;
        }
        fuel = fuel - 1;
    }
}

} // verus!
